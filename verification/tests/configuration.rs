use fluent_bit_matchy::{
    default_flag_field, default_output_field, default_reload_interval, default_true, Config,
    ExtractorToggles,
};

#[test]
fn documented_defaults() {
    assert_eq!(default_reload_interval(), 0);
    assert_eq!(default_output_field(), "matchy_threats");
    assert_eq!(default_flag_field(), "threat_detected");
    assert!(default_true());
}

#[test]
fn config_with_defaults_names_only_the_database() {
    let config = Config::with_defaults("./threats.mxy".to_string());
    assert_eq!(config.database, "./threats.mxy");
    assert_eq!(config.reload_interval_secs, 0);
    assert_eq!(config.output_field, "matchy_threats");
    assert_eq!(config.flag_field, "threat_detected");
    assert!(config.extract_domains);
    assert!(config.extract_emails);
    assert!(config.extract_ipv4);
    assert!(config.extract_ipv6);
    assert!(config.extract_hashes);
    assert!(config.extract_bitcoin);
    assert!(config.extract_ethereum);
    assert!(config.extract_monero);
}

#[test]
fn toggles_follow_the_config_fields() {
    let mut config = Config::with_defaults("db".to_string());
    config.extract_emails = false;
    config.extract_monero = false;
    assert_eq!(
        config.toggles(),
        ExtractorToggles {
            domains: true,
            emails: false,
            ipv4: true,
            ipv6: true,
            hashes: true,
            bitcoin: true,
            ethereum: true,
            monero: false,
        }
    );
}
