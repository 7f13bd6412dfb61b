use komodo_rpc::config::ConfigError;
use komodo_rpc::error::{ApiError, ClientError};
use komodo_rpc::response::{EnvelopeViolation, RpcError};

#[test]
fn rpc_error_text() {
    let e = ApiError::from(RpcError { code: -5, message: "no such tx".to_string() });
    assert!(matches!(e, ApiError::RPC(_)));
    assert_eq!(e.text(), "RPC error: code -5\nmessage no such tx");
    let e = ApiError::from(RpcError { code: 5, message: "m".to_string() });
    assert_eq!(e.text(), "RPC error: code 5\nmessage m");
}

#[test]
fn config_error_text() {
    let e = ApiError::from_config(ConfigError::MissingPort);
    assert_eq!(e.text(), "no rpcport in config file");
    assert_eq!(ApiError::from_config(ConfigError::MissingUser).text(), "no rpcuser in config file");
    assert_eq!(
        ApiError::from_config(ConfigError::MissingPassword).text(),
        "no rpcpassword in config file"
    );
    assert_eq!(
        ApiError::from_config(ConfigError::InvalidPort).text(),
        "rpcport in config file is not a port number"
    );
}

#[test]
fn other_error_text() {
    assert_eq!(ApiError::Other("odd".to_string()).text(), "odd");
}

#[test]
fn client_errors_keep_their_kind() {
    let j = serde_json::from_str::<u32>("x").unwrap_err();
    let shown = j.to_string();
    let e = ApiError::from(ClientError::Json(j));
    assert!(matches!(e, ApiError::Client(ClientError::Json(_))));
    assert_eq!(e.text(), shown);
    let t = ApiError::from(ClientError::Transport(std::io::Error::new(
        std::io::ErrorKind::TimedOut,
        "late",
    )));
    assert_eq!(t.text(), "late");
    let v = ApiError::from(ClientError::Envelope(EnvelopeViolation::NonePresent));
    assert_eq!(v.text(), "response holds neither a result nor an error");
}

#[test]
fn io_error_text() {
    let e = ApiError::from(std::io::Error::new(std::io::ErrorKind::NotFound, "gone"));
    assert!(matches!(e, ApiError::IO(_)));
    assert_eq!(e.text(), "IO error: NotFound");
}

#[test]
fn parse_int_error_text() {
    let p = "x".parse::<u16>().unwrap_err();
    let e = ApiError::from(p);
    assert!(matches!(e, ApiError::ParseInt(_)));
    assert_eq!(e.text(), "Parse error: invalid digit found in string");
}

#[test]
fn hex_error_text() {
    let h = bitcoin::util::hash::Sha256dHash::from_hex("zz").unwrap_err();
    let e = ApiError::from(h);
    assert!(matches!(e, ApiError::Hex(_)));
    assert_eq!(e.text(), "Parse error: bad length 2 for sha256d hex string");
}
