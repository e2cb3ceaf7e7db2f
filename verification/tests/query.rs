use zitadel_cli::error::ZitadelCLIError;
use zitadel_cli::query::with_query;

fn pair(name: &str, value: &str) -> (String, String) {
    (name.to_string(), value.to_string())
}

#[test]
fn adds_parameters_to_an_address() {
    assert_eq!(
        with_query("https://example.net?dont=clobberme", &vec![pair("lang", "rust"), pair("browser", "servo")]),
        Ok("https://example.net/?dont=clobberme&lang=rust&browser=servo".to_string())
    );
}

#[test]
fn encodes_the_values() {
    assert_eq!(
        with_query("https://issuer.com/authorize", &vec![pair("redirect_uri", "http://localhost:8080/callback"), pair("scope", "openid profile")]),
        Ok("https://issuer.com/authorize?redirect_uri=http%3A%2F%2Flocalhost%3A8080%2Fcallback&scope=openid+profile".to_string())
    );
}

#[test]
fn refuses_an_address_that_is_not_absolute() {
    assert_eq!(
        with_query("/authorize", &vec![pair("a", "b")]),
        Err(ZitadelCLIError::URLParse("relative URL without a base".to_string()))
    );
    assert!(matches!(with_query("", &vec![]), Err(ZitadelCLIError::URLParse(_))));
}
