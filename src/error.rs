use vstd::prelude::*;
use crate::config::ConfigError;
use crate::response::{EnvelopeViolation, RpcError};
use crate::text::signed_decimal;

verus! {

#[verifier::external_type_specification]
#[verifier::external_body]
pub struct ExJsonError(serde_json::Error);

#[verifier::external_type_specification]
#[verifier::external_body]
pub struct ExIoError(std::io::Error);

#[verifier::external_type_specification]
#[verifier::external_body]
pub struct ExParseIntError(std::num::ParseIntError);

#[verifier::external_type_specification]
#[verifier::external_body]
pub struct ExHexError(bitcoin::util::hash::HexError);

/// Failures below the dispatch boundary: the exchange could not be completed.
#[derive(Debug)]
pub enum ClientError {
    /// The response body could not be decoded.
    Json(serde_json::Error),
    /// The request could not be delivered or its answer not received.
    Transport(std::io::Error),
    /// The envelope carried both or neither of `result` and `error`.
    Envelope(EnvelopeViolation),
}

/// Every failure the library can report, in one type.
#[derive(Debug)]
pub enum ApiError {
    RPC(RpcError),
    Client(ClientError),
    Config(String),
    IO(std::io::Error),
    ParseInt(std::num::ParseIntError),
    Hex(bitcoin::util::hash::HexError),
    Other(String),
}

/// Relies on the `Display` form of `serde_json::Error`.
#[verifier::external_body]
fn json_error_text(e: &serde_json::Error) -> String {
    e.to_string()
}

/// Relies on the `Display` form of `std::io::Error`.
#[verifier::external_body]
fn io_error_text(e: &std::io::Error) -> String {
    e.to_string()
}

/// Relies on the `Debug` form of the kind of a `std::io::Error`.
#[verifier::external_body]
fn io_kind_text(e: &std::io::Error) -> String {
    format!("{:?}", e.kind())
}

/// Relies on the `Display` form of `std::num::ParseIntError`.
#[verifier::external_body]
fn parse_int_text(e: &std::num::ParseIntError) -> String {
    e.to_string()
}

/// Relies on the `Display` form of `bitcoin::util::hash::HexError`.
#[verifier::external_body]
fn hex_text(e: &bitcoin::util::hash::HexError) -> String {
    e.to_string()
}

impl EnvelopeViolation {
    pub open spec fn message_spec(self) -> Seq<char> {
        match self {
            EnvelopeViolation::BothPresent => "response holds both a result and an error"@,
            EnvelopeViolation::NonePresent => "response holds neither a result nor an error"@,
        }
    }

    pub fn message(&self) -> (r: String)
        ensures
            r@ == self.message_spec(),
    {
        match self {
            EnvelopeViolation::BothPresent => String::from_str("response holds both a result and an error"),
            EnvelopeViolation::NonePresent => String::from_str("response holds neither a result nor an error"),
        }
    }
}

impl ConfigError {
    pub open spec fn message_spec(self) -> Seq<char> {
        match self {
            ConfigError::MissingUser => "no rpcuser in config file"@,
            ConfigError::MissingPassword => "no rpcpassword in config file"@,
            ConfigError::MissingPort => "no rpcport in config file"@,
            ConfigError::InvalidPort => "rpcport in config file is not a port number"@,
        }
    }

    pub fn message(&self) -> (r: String)
        ensures
            r@ == self.message_spec(),
    {
        match self {
            ConfigError::MissingUser => String::from_str("no rpcuser in config file"),
            ConfigError::MissingPassword => String::from_str("no rpcpassword in config file"),
            ConfigError::MissingPort => String::from_str("no rpcport in config file"),
            ConfigError::InvalidPort => String::from_str("rpcport in config file is not a port number"),
        }
    }
}

impl ApiError {
    /// The umbrella error for a configuration problem: its message.
    pub fn from_config(e: ConfigError) -> (r: ApiError)
        ensures
            r is Config,
            r->Config_0@ == e.message_spec(),
    {
        ApiError::Config(e.message())
    }

    /// A readable account of the failure. For a daemon error: `RPC error: `,
    /// then its code and its message; for a configuration or other error: its message; for a
    /// broken envelope: what is wrong with it; for the failures of outside
    /// code: a class prefix and that code's own account.
    pub fn text(&self) -> (r: String)
        ensures
            self is RPC ==> r@ == "RPC error: "@ + ("code "@ + signed_decimal(self->RPC_0.code as int)
                + "\nmessage "@ + self->RPC_0.message@),
            self is Config ==> r@ == self->Config_0@,
            self is Other ==> r@ == self->Other_0@,
            self is Client && self->Client_0 is Envelope
                ==> r@ == self->Client_0->Envelope_0.message_spec(),
            self is IO ==> r@.len() >= "IO error: "@.len()
                && r@.subrange(0, "IO error: "@.len() as int) == "IO error: "@,
            self is ParseInt || self is Hex ==> r@.len() >= "Parse error: "@.len()
                && r@.subrange(0, "Parse error: "@.len() as int) == "Parse error: "@,
    {
        match self {
            ApiError::RPC(e) => {
                let mut r = String::from_str("RPC error: ");
                let t = e.text();
                r.append(t.as_str());
                r
            },
            ApiError::Client(c) => match c {
                ClientError::Json(e) => json_error_text(e),
                ClientError::Transport(e) => io_error_text(e),
                ClientError::Envelope(v) => v.message(),
            },
            ApiError::Config(s) => String::from_str(s.as_str()),
            ApiError::IO(e) => {
                let mut r = String::from_str("IO error: ");
                let k = io_kind_text(e);
                r.append(k.as_str());
                assert(r@.subrange(0, "IO error: "@.len() as int) == "IO error: "@);
                r
            },
            ApiError::ParseInt(e) => {
                let mut r = String::from_str("Parse error: ");
                let t = parse_int_text(e);
                r.append(t.as_str());
                assert(r@.subrange(0, "Parse error: "@.len() as int) == "Parse error: "@);
                r
            },
            ApiError::Hex(e) => {
                let mut r = String::from_str("Parse error: ");
                let t = hex_text(e);
                r.append(t.as_str());
                assert(r@.subrange(0, "Parse error: "@.len() as int) == "Parse error: "@);
                r
            },
            ApiError::Other(s) => String::from_str(s.as_str()),
        }
    }
}

impl From<RpcError> for ApiError {
    fn from(e: RpcError) -> ApiError {
        ApiError::RPC(e)
    }
}

impl vstd::std_specs::convert::FromSpecImpl<RpcError> for ApiError {
    open spec fn obeys_from_spec() -> bool {
        true
    }

    open spec fn from_spec(v: RpcError) -> ApiError {
        ApiError::RPC(v)
    }
}

impl From<ClientError> for ApiError {
    fn from(e: ClientError) -> ApiError {
        ApiError::Client(e)
    }
}

impl vstd::std_specs::convert::FromSpecImpl<ClientError> for ApiError {
    open spec fn obeys_from_spec() -> bool {
        true
    }

    open spec fn from_spec(v: ClientError) -> ApiError {
        ApiError::Client(v)
    }
}

impl From<std::io::Error> for ApiError {
    fn from(e: std::io::Error) -> ApiError {
        ApiError::IO(e)
    }
}

impl vstd::std_specs::convert::FromSpecImpl<std::io::Error> for ApiError {
    open spec fn obeys_from_spec() -> bool {
        true
    }

    open spec fn from_spec(v: std::io::Error) -> ApiError {
        ApiError::IO(v)
    }
}

impl From<std::num::ParseIntError> for ApiError {
    fn from(e: std::num::ParseIntError) -> ApiError {
        ApiError::ParseInt(e)
    }
}

impl vstd::std_specs::convert::FromSpecImpl<std::num::ParseIntError> for ApiError {
    open spec fn obeys_from_spec() -> bool {
        true
    }

    open spec fn from_spec(v: std::num::ParseIntError) -> ApiError {
        ApiError::ParseInt(v)
    }
}

impl From<bitcoin::util::hash::HexError> for ApiError {
    fn from(e: bitcoin::util::hash::HexError) -> ApiError {
        ApiError::Hex(e)
    }
}

impl vstd::std_specs::convert::FromSpecImpl<bitcoin::util::hash::HexError> for ApiError {
    open spec fn obeys_from_spec() -> bool {
        true
    }

    open spec fn from_spec(v: bitcoin::util::hash::HexError) -> ApiError {
        ApiError::Hex(v)
    }
}

} // verus!
