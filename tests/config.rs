use komodo_rpc::client::{config_path, Client};
use komodo_rpc::config::{Config, ConfigError};

fn parsed(text: &str) -> Config {
    Config::parse(text).unwrap()
}

#[test]
fn parses_the_three_keys() {
    let c = parsed("rpcuser=a\nrpcpassword=b\nrpcport=7771\n");
    assert_eq!(c.rpc_user, "a");
    assert_eq!(c.rpc_password, "b");
    assert_eq!(c.rpc_port, 7771);
}

#[test]
fn line_order_and_junk_lines_do_not_matter() {
    let orders = [
        "rpcuser=a\nrpcpassword=b\nrpcport=7771",
        "rpcport=7771\nrpcuser=a\nrpcpassword=b",
        "junk\nrpcpassword=b\n\nrpcport=7771\nno equals here\nrpcuser=a\n",
        "server=1\nrpcpassword=b\nrpcuser=a\nrpcport=7771\ntxindex=1",
    ];
    for text in orders {
        let c = parsed(text);
        assert_eq!(c.rpc_user, "a");
        assert_eq!(c.rpc_password, "b");
        assert_eq!(c.rpc_port, 7771);
    }
}

#[test]
fn value_is_split_at_first_equals() {
    let c = parsed("rpcuser=a=b\nrpcpassword==x\nrpcport=1");
    assert_eq!(c.rpc_user, "a=b");
    assert_eq!(c.rpc_password, "=x");
    assert_eq!(c.rpc_port, 1);
}

#[test]
fn last_entry_wins() {
    let c = parsed("rpcuser=a\nrpcuser=z\nrpcpassword=b\nrpcport=10\nrpcport=20");
    assert_eq!(c.rpc_user, "z");
    assert_eq!(c.rpc_port, 20);
}

#[test]
fn missing_keys_are_errors() {
    assert!(matches!(Config::parse("rpcpassword=b\nrpcport=7771"), Err(ConfigError::MissingUser)));
    assert!(matches!(Config::parse("rpcuser=a\nrpcport=7771"), Err(ConfigError::MissingPassword)));
    assert!(matches!(Config::parse("rpcuser=a\nrpcpassword=b"), Err(ConfigError::MissingPort)));
    assert!(matches!(Config::parse(""), Err(ConfigError::MissingUser)));
}

#[test]
fn bad_ports_are_errors() {
    for port in ["abc", "", "+", "-1", "65536", "99999999999", "77 71", "7771\r"] {
        let text = format!("rpcuser=a\nrpcpassword=b\nrpcport={}", port);
        assert!(matches!(Config::parse(&text), Err(ConfigError::InvalidPort)), "{}", port);
    }
}

#[test]
fn edge_ports_are_accepted() {
    assert_eq!(parsed("rpcuser=a\nrpcpassword=b\nrpcport=65535").rpc_port, 65535);
    assert_eq!(parsed("rpcuser=a\nrpcpassword=b\nrpcport=0").rpc_port, 0);
    assert_eq!(parsed("rpcuser=a\nrpcpassword=b\nrpcport=+8").rpc_port, 8);
    assert_eq!(parsed("rpcuser=a\nrpcpassword=b\nrpcport=007").rpc_port, 7);
}

#[test]
fn assetchain_client_takes_configured_values() {
    let c = Client::new_assetchain("rpcuser=u\nrpcpassword=p\nrpcport=12345").unwrap();
    assert_eq!(c.port(), 12345);
    assert_eq!(c.url(), "http://127.0.0.1:12345");
    assert_eq!(c.authorization(), "Basic dTpw");
    assert!(matches!(Client::new_assetchain("rpcuser=u\nrpcport=1"), Err(ConfigError::MissingPassword)));
}

#[test]
fn config_path_names_chain_twice() {
    assert_eq!(config_path("KMD"), ".komodo/KMD/KMD.conf");
}

#[test]
fn lines_without_equals_never_change_the_result() {
    let base = "server=1\nrpcuser=x\nrpcpassword=y=z\nrpcport=80\nrpcuser=w";
    let padded = "junk\nserver=1\n\nrpcuser=x\nrpcpassword=y=z\nnoise line\nrpcport=80\nrpcuser=w\n";
    let a = parsed(base);
    let b = parsed(padded);
    let again = parsed(base);
    assert_eq!((a.rpc_user.as_str(), a.rpc_password.as_str(), a.rpc_port), ("w", "y=z", 80));
    assert_eq!((&b.rpc_user, &b.rpc_password, b.rpc_port), (&a.rpc_user, &a.rpc_password, a.rpc_port));
    assert_eq!((&again.rpc_user, &again.rpc_password, again.rpc_port), (&a.rpc_user, &a.rpc_password, a.rpc_port));
    assert!(matches!(Config::parse("junk\nrpcuser=a\nmore junk"), Err(ConfigError::MissingPassword)));
}
