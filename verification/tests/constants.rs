use rusty_rails::constants::{
    ARR_API_KEY_VAR, ConfigError, DEP_API_KEY_VAR, arr_api_key, dep_api_key,
    validate_required_keys,
};

#[test]
fn dep_api_key_missing() {
    assert_eq!(
        dep_api_key(None).unwrap_err(),
        ConfigError::MissingVar(DEP_API_KEY_VAR)
    );
}

#[test]
fn dep_api_key_empty() {
    assert_eq!(
        dep_api_key(Some(String::new())).unwrap_err(),
        ConfigError::EmptyVar(DEP_API_KEY_VAR)
    );
}

#[test]
fn dep_api_key_whitespace_only_counts_as_empty() {
    assert_eq!(
        dep_api_key(Some("  \t\n ".to_string())).unwrap_err(),
        ConfigError::EmptyVar(DEP_API_KEY_VAR)
    );
}

#[test]
fn dep_api_key_present() {
    assert_eq!(
        dep_api_key(Some("dep-key".to_string())).unwrap(),
        "dep-key"
    );
}

#[test]
fn arr_api_key_missing_and_present() {
    assert_eq!(
        arr_api_key(None).unwrap_err(),
        ConfigError::MissingVar(ARR_API_KEY_VAR)
    );
    assert_eq!(
        arr_api_key(Some("arr-key".to_string())).unwrap(),
        "arr-key"
    );
}

#[test]
fn validate_required_keys_builds_config() {
    let config =
        validate_required_keys(Some("dep-key".to_string()), Some("arr-key".to_string())).unwrap();
    assert_eq!(config.dep_api_key, "dep-key");
    assert_eq!(config.arr_api_key, "arr-key");
}

#[test]
fn validate_required_keys_reports_departures_first() {
    assert_eq!(
        validate_required_keys(None, None).unwrap_err(),
        ConfigError::MissingVar(DEP_API_KEY_VAR)
    );
    assert_eq!(
        validate_required_keys(Some("dep-key".to_string()), None).unwrap_err(),
        ConfigError::MissingVar(ARR_API_KEY_VAR)
    );
    assert_eq!(
        validate_required_keys(Some("dep-key".to_string()), Some(" ".to_string())).unwrap_err(),
        ConfigError::EmptyVar(ARR_API_KEY_VAR)
    );
}
