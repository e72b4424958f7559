use hacl::config::Config;
use hacl::config::SubcommandGiven;
use hacl::config::apply_overrides;
use hacl::config::validate_credentials;
use hacl::errors::ConfigError;
use hacl::errors::HaclError;

#[test]
fn empty_base_url_fails_before_any_request() {
    let config = Config { base_url: "".to_string(), token: "x".to_string() };
    let result = validate_credentials(&config);
    assert!(matches!(
        result,
        Err(HaclError::ConfigurationError(ConfigError::NoBaseUrl))
    ));
}

#[test]
fn empty_token_fails_before_any_request() {
    let config = Config { base_url: "http://hub.local:8123".to_string(), token: "".to_string() };
    let result = validate_credentials(&config);
    assert!(matches!(
        result,
        Err(HaclError::ConfigurationError(ConfigError::NoApiToken))
    ));
}

#[test]
fn full_credentials_pass_validation() {
    let config = Config { base_url: "http://hub.local:8123".to_string(), token: "t".to_string() };
    assert!(validate_credentials(&config).is_ok());
}

#[test]
fn default_config_is_unconfigured() {
    let config = Config::default();
    assert_eq!(config.base_url, "");
    assert_eq!(config.token, "");
}

#[test]
fn overrides_replace_only_the_given_fields() {
    let defaults = Config { base_url: "http://old".to_string(), token: "old-token".to_string() };
    let merged = apply_overrides(defaults, Some("http://new".to_string()), None);
    assert_eq!(merged.base_url, "http://new");
    assert_eq!(merged.token, "old-token");

    let defaults = Config { base_url: "http://old".to_string(), token: "old-token".to_string() };
    let merged = apply_overrides(defaults, None, Some("new-token".to_string()));
    assert_eq!(merged.base_url, "http://old");
    assert_eq!(merged.token, "new-token");
}

#[test]
fn subcommand_outcome_hands_back_the_config() {
    assert!(SubcommandGiven::Yes.config().is_none());
    let config = Config { base_url: "http://hub".to_string(), token: "t".to_string() };
    let out = SubcommandGiven::No(config).config().unwrap();
    assert_eq!(out.base_url, "http://hub");
    assert_eq!(out.token, "t");
}
