use vstd::prelude::*;
use crate::config::{Config, ConfigError, config_of};
use crate::text::{decimal, push_decimal};

verus! {

/// The port a client talks to when none is configured.
pub const DEFAULT_PORT: u16 = 7771;

/// What `base64::encode` makes of the UTF-8 bytes of a text.
pub uninterp spec fn base64_of(s: Seq<char>) -> Seq<char>;

/// Relies on `base64::encode`: the standard base64 text of the input's bytes,
/// which depends on those bytes alone.
#[verifier::external_body]
fn base64_encode(s: &str) -> (r: String)
    ensures
        r@ == base64_of(s@),
{
    base64::encode(s)
}

/// The connection settings of a daemon on the local host: credentials and port.
#[derive(Debug, Clone)]
pub struct Client {
    username: String,
    password: String,
    port: u16,
}

impl Client {
    pub closed spec fn username_view(&self) -> Seq<char> {
        self.username@
    }

    pub closed spec fn password_view(&self) -> Seq<char> {
        self.password@
    }

    pub closed spec fn port_view(&self) -> u16 {
        self.port
    }

    /// A client for the given credentials at the default local port.
    pub fn new(username: &str, password: &str) -> (r: Client)
        ensures
            r.username_view() == username@,
            r.password_view() == password@,
            r.port_view() == DEFAULT_PORT,
    {
        Client { username: String::from_str(username), password: String::from_str(password), port: DEFAULT_PORT }
    }

    /// A client for the credentials and port of a chain's configuration text;
    /// a text without them yields the configuration error and no client.
    pub fn new_assetchain(config_text: &str) -> (r: Result<Client, ConfigError>)
        ensures
            match r {
                Ok(c) => config_of(config_text@) == Ok::<(Seq<char>, Seq<char>, u16), ConfigError>(
                    (c.username_view(), c.password_view(), c.port_view()),
                ),
                Err(e) => config_of(config_text@) == Err::<(Seq<char>, Seq<char>, u16), ConfigError>(e),
            },
    {
        match Config::parse(config_text) {
            Ok(c) => Ok(Client::from_config(c)),
            Err(e) => Err(e),
        }
    }

    /// A client for the credentials and port of a parsed configuration.
    pub fn from_config(config: Config) -> (r: Client)
        ensures
            r.username_view() == config.rpc_user@,
            r.password_view() == config.rpc_password@,
            r.port_view() == config.rpc_port,
    {
        Client { username: config.rpc_user, password: config.rpc_password, port: config.rpc_port }
    }

    /// The value of the `Authorization` header: `Basic ` and the base64 form of
    /// `username:password`.
    pub fn authorization(&self) -> (r: String)
        ensures
            r@ == "Basic "@ + base64_of(self.username_view() + ":"@ + self.password_view()),
    {
        let mut pair = String::from_str(self.username.as_str());
        pair.append(":");
        pair.append(self.password.as_str());
        let mut r = String::from_str("Basic ");
        let encoded = base64_encode(pair.as_str());
        r.append(encoded.as_str());
        r
    }

    pub fn port(&self) -> (r: u16)
        ensures
            r == self.port_view(),
    {
        self.port
    }

    /// The address requests are posted to: the local host at the client's port.
    pub fn url(&self) -> (r: String)
        ensures
            r@ == "http://127.0.0.1:"@ + decimal(self.port_view() as nat),
    {
        let mut r = String::from_str("http://127.0.0.1:");
        push_decimal(&mut r, self.port as u32);
        r
    }
}

/// Where a chain's configuration lies, relative to the home directory:
/// `.komodo/<chain>/<chain>.conf`.
pub fn config_path(chain: &str) -> (r: String)
    ensures
        r@ == ".komodo/"@ + chain@ + "/"@ + chain@ + ".conf"@,
{
    let mut r = String::from_str(".komodo/");
    r.append(chain);
    r.append("/");
    r.append(chain);
    r.append(".conf");
    r
}

} // verus!
