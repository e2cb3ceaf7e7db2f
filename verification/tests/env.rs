use zitadel_cli::env::{
    callback_server_address, client_id, client_secret, config_file_path, is_secure, issuer,
    personal_access_token, scopes, Environment,
};
use zitadel_cli::error::ZitadelCLIError;

fn environment(variables: &[(&str, &str)]) -> Environment {
    Environment::new(variables.iter().map(|(n, v)| (n.to_string(), v.to_string())).collect())
}

#[test]
fn reads_the_variables() {
    let env = environment(&[
        ("CONFIG_FILE_PATH", "/tmp/config.json"),
        ("ISSUER", "https://issuer.com"),
        ("CLIENT_ID", "client_id"),
        ("CLIENT_SECRET", "client_secret"),
        ("CALLBACK_SERVER_ADDRESS", "localhost:8080"),
        ("SCOPES", "openid profile email"),
        ("PERSONAL_ACCESS_TOKEN", "pat"),
    ]);
    assert_eq!(config_file_path(&env).unwrap(), "/tmp/config.json");
    assert_eq!(issuer(&env).unwrap(), "https://issuer.com");
    assert_eq!(client_id(&env).unwrap(), "client_id");
    assert_eq!(client_secret(&env).unwrap(), "client_secret");
    assert_eq!(callback_server_address(&env).unwrap(), "localhost:8080");
    assert_eq!(scopes(&env).unwrap(), "openid profile email");
    assert_eq!(personal_access_token(&env).unwrap(), "pat");
}

#[test]
fn missing_variable_is_a_configuration_error() {
    let env = environment(&[("ISSUER", "https://issuer.com")]);
    assert_eq!(config_file_path(&env), Err(ZitadelCLIError::Configuration("CONFIG_FILE_PATH".to_string())));
    assert_eq!(client_id(&env), Err(ZitadelCLIError::Configuration("CLIENT_ID".to_string())));
    assert_eq!(client_secret(&env), Err(ZitadelCLIError::Configuration("CLIENT_SECRET".to_string())));
    assert_eq!(
        callback_server_address(&env),
        Err(ZitadelCLIError::Configuration("CALLBACK_SERVER_ADDRESS".to_string()))
    );
    assert_eq!(scopes(&env), Err(ZitadelCLIError::Configuration("SCOPES".to_string())));
    assert_eq!(
        personal_access_token(&env),
        Err(ZitadelCLIError::Configuration("PERSONAL_ACCESS_TOKEN".to_string()))
    );
    assert_eq!(issuer(&environment(&[])), Err(ZitadelCLIError::Configuration("ISSUER".to_string())));
}

#[test]
fn names_are_exact_and_the_first_value_counts() {
    let env = environment(&[("issuer", "lower"), ("ISSUER ", "space"), ("ISSUER", "first"), ("ISSUER", "second")]);
    assert_eq!(issuer(&env).unwrap(), "first");
    assert_eq!(env.var("issuer"), Some("lower".to_string()));
    assert_eq!(env.var("ISSUE"), None);
    assert_eq!(env.require("X"), Err(ZitadelCLIError::Configuration("X".to_string())));
}

#[test]
fn empty_value_is_a_value() {
    let env = environment(&[("SCOPES", "")]);
    assert_eq!(scopes(&env).unwrap(), "");
}

#[test]
fn secure_only_when_set_to_true() {
    assert!(is_secure(&environment(&[("IS_SECURE", "true")])));
    assert!(!is_secure(&environment(&[("IS_SECURE", "false")])));
    assert!(!is_secure(&environment(&[("IS_SECURE", "TRUE")])));
    assert!(!is_secure(&environment(&[("IS_SECURE", "1")])));
    assert!(!is_secure(&environment(&[("IS_SECURE", "")])));
    assert!(!is_secure(&environment(&[("IS_SECURE", " true")])));
    assert!(!is_secure(&environment(&[])));
}
