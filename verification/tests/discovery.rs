use zitadel_cli::discovery::{discovery_url, parse_discovery, DiscoveryConfig};
use zitadel_cli::error::ZitadelCLIError;
use zitadel_cli::json::Json;

#[test]
fn address_of_the_metadata() {
    assert_eq!(
        discovery_url("https://issuer.com"),
        "https://issuer.com/.well-known/openid-configuration"
    );
    assert_eq!(discovery_url(""), "/.well-known/openid-configuration");
}

#[test]
fn reads_a_document_with_both_endpoints() {
    let body = "{\"authorization_endpoint\":\"https://issuer.com/oauth/v2/authorize\",\"token_endpoint\":\"https://issuer.com/oauth/v2/token\"}";
    assert_eq!(
        parse_discovery(body),
        Ok(DiscoveryConfig {
            authorization_endpoint: "https://issuer.com/oauth/v2/authorize".to_string(),
            token_endpoint: "https://issuer.com/oauth/v2/token".to_string(),
        })
    );
}

#[test]
fn passes_over_what_else_the_document_holds() {
    let body = "{\"issuer\":\"https://issuer.com\",\"token_endpoint\":\"T\",\"jwks_uri\":\"J\",\"scopes_supported\":[\"openid\"],\"request_parameter_supported\":true,\"authorization_endpoint\":\"A\"}";
    let config = parse_discovery(body).unwrap();
    assert_eq!(config.authorization_endpoint, "A");
    assert_eq!(config.token_endpoint, "T");
}

#[test]
fn refuses_a_document_without_an_endpoint() {
    assert_eq!(
        parse_discovery("{\"token_endpoint\":\"T\"}"),
        Err(ZitadelCLIError::JSONParse("missing field `authorization_endpoint`".to_string()))
    );
    assert_eq!(
        parse_discovery("{\"authorization_endpoint\":\"A\"}"),
        Err(ZitadelCLIError::JSONParse("missing field `token_endpoint`".to_string()))
    );
    assert!(matches!(parse_discovery("{}"), Err(ZitadelCLIError::JSONParse(_))));
    assert!(matches!(parse_discovery("[]"), Err(ZitadelCLIError::JSONParse(_))));
}

#[test]
fn refuses_an_endpoint_that_is_no_string() {
    assert_eq!(
        parse_discovery("{\"authorization_endpoint\":\"A\",\"token_endpoint\":5}"),
        Err(ZitadelCLIError::JSONParse("invalid type for field `token_endpoint`".to_string()))
    );
    assert!(matches!(
        parse_discovery("{\"authorization_endpoint\":null,\"token_endpoint\":\"T\"}"),
        Err(ZitadelCLIError::JSONParse(_))
    ));
}

#[test]
fn refuses_a_body_that_is_no_json() {
    assert!(matches!(parse_discovery("<html>"), Err(ZitadelCLIError::JSONParse(_))));
    assert!(matches!(parse_discovery(""), Err(ZitadelCLIError::JSONParse(_))));
}

#[test]
fn reads_the_metadata_from_a_tree() {
    let document = Json::Object(vec![
        ("token_endpoint".to_string(), Json::Text("T".to_string())),
        ("authorization_endpoint".to_string(), Json::Text("A".to_string())),
    ]);
    let config = DiscoveryConfig::from_json(&document).unwrap();
    assert_eq!(config.authorization_endpoint, "A");
    assert_eq!(config.token_endpoint, "T");
    assert!(DiscoveryConfig::from_json(&Json::Null).is_err());
}
