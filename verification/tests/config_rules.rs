use mqtt_subscriber::config::Config;

fn sample() -> Config {
    Config {
        scheme: None,
        broker_address: String::from("localhost"),
        broker_port: 1883,
        client_id: String::from("sub-1"),
        topics: vec![String::from("a"), String::from("b")],
        qos: vec![1],
        clean_session: None,
        username: None,
        password: None,
        ca_cert_path: None,
        client_combined_path: None,
    }
}

fn with_scheme(scheme: &str) -> Config {
    let mut config = sample();
    config.scheme = Some(String::from(scheme));
    config
}

#[test]
fn absent_scheme_is_unencrypted() {
    assert!(!sample().uses_tls());
}

#[test]
fn ssl_and_mqtts_are_encrypted() {
    assert!(with_scheme("ssl").uses_tls());
    assert!(with_scheme("mqtts").uses_tls());
}

#[test]
fn other_schemes_are_unencrypted() {
    assert!(!with_scheme("tcp").uses_tls());
    assert!(!with_scheme("SSL").uses_tls());
    assert!(!with_scheme("ssl ").uses_tls());
    assert!(!with_scheme("").uses_tls());
}

#[test]
fn clean_session_defaults_to_true() {
    let mut config = sample();
    assert!(config.wants_clean_session());
    config.clean_session = Some(true);
    assert!(config.wants_clean_session());
    config.clean_session = Some(false);
    assert!(!config.wants_clean_session());
}

#[test]
fn credentials_need_a_user_name() {
    let mut config = sample();
    config.password = Some(String::from("secret"));
    assert_eq!(config.credentials(), None);
}

#[test]
fn absent_password_is_empty() {
    let mut config = sample();
    config.username = Some(String::from("alice"));
    assert_eq!(config.credentials(), Some((String::from("alice"), String::new())));
    config.password = Some(String::from("secret"));
    assert_eq!(
        config.credentials(),
        Some((String::from("alice"), String::from("secret")))
    );
}

#[test]
fn missing_ca_warns_only_when_encrypted() {
    assert!(!sample().missing_ca_warning());
    let mut config = with_scheme("ssl");
    assert!(config.missing_ca_warning());
    config.ca_cert_path = Some(String::from("ca.pem"));
    assert!(!config.missing_ca_warning());
    let mut plain = with_scheme("tcp");
    plain.ca_cert_path = None;
    assert!(!plain.missing_ca_warning());
}
