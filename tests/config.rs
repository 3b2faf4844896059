use queens_corsar_tg::{
    check_server_parts, decimal_string, signed_decimal_string, Config, ListenerSource,
    ServerError, ServersSection,
};

#[test]
fn default_config() {
    let c = Config::default();
    assert_eq!(c.general.server_ip, "127.0.0.1");
    assert_eq!(c.general.server_port, 8443);
    assert_eq!(c.general.private_key_path, "private.key");
    assert_eq!(c.general.certificate_path, "server.crt");
    assert_eq!(c.general.token_var, "QUEENSCORSAR_TG_TOKEN");
    assert_eq!(c.general.sock_addr, "/tmp/qcorsar.tg.sock");
    assert!(c.integrations.is_none());
    assert_eq!(c.webhook_address(), "127.0.0.1:8443");
    assert_eq!(c.relay_peer(), None);
}

#[test]
fn relay_peer_is_the_discord_socket() {
    let mut c = Config::default();
    c.integrations = Some(ServersSection { discord: Some("/tmp/d.sock".to_string()), whatsapp: None });
    assert_eq!(c.relay_peer(), Some("/tmp/d.sock".to_string()));
    c.integrations = Some(ServersSection { discord: None, whatsapp: Some("/tmp/w".to_string()) });
    assert_eq!(c.relay_peer(), None);
}

#[test]
fn server_parts() {
    assert_eq!(check_server_parts(false, true, false, true), Err(ServerError::MissingLogger));
    assert_eq!(check_server_parts(true, true, true, false), Err(ServerError::AddressOrListener));
    assert_eq!(check_server_parts(true, false, false, true), Err(ServerError::AddressOrListener));
    assert_eq!(check_server_parts(true, false, true, true), Err(ServerError::HandlerWithListener));
    assert_eq!(check_server_parts(true, true, false, false), Ok(ListenerSource::Bind));
    assert_eq!(check_server_parts(true, true, false, true), Ok(ListenerSource::Bind));
    assert_eq!(check_server_parts(true, false, true, false), Ok(ListenerSource::Custom));
}

#[test]
fn decimal_texts() {
    assert_eq!(decimal_string(0), "0");
    assert_eq!(decimal_string(u64::MAX), "18446744073709551615");
    assert_eq!(signed_decimal_string(-1001898024643), "-1001898024643");
    assert_eq!(signed_decimal_string(i64::MIN), "-9223372036854775808");
    assert_eq!(signed_decimal_string(42), "42");
}
