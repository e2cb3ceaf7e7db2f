use zitadel_cli::error::{IoError, ZitadelCLIError};
use zitadel_cli::json::Json;
use zitadel_cli::token::{
    client_credentials_request, exchange_code_request, load_access_token, read_token_answer,
    Credential, Token, TokenResponse,
};

fn pair(name: &str, value: &str) -> (String, String) {
    (name.to_string(), value.to_string())
}

const BODY: &str = "{\"access_token\":\"tok\",\"token_type\":\"Bearer\",\"expires_in\":3600}";

#[test]
fn request_for_a_code_exchange() {
    let request = exchange_code_request("https://issuer.com/token", "client", "abc123", "http://localhost:8080/callback", "verifier");
    assert_eq!(request.url, "https://issuer.com/token");
    assert_eq!(
        request.form,
        vec![
            pair("grant_type", "authorization_code"),
            pair("client_id", "client"),
            pair("code", "abc123"),
            pair("redirect_uri", "http://localhost:8080/callback"),
            pair("code_verifier", "verifier"),
        ]
    );
    assert_eq!(request.basic_auth, None);
}

#[test]
fn request_for_client_credentials() {
    let request = client_credentials_request("https://issuer.com/token", "client", "secret", "openid profile");
    assert_eq!(request.url, "https://issuer.com/token");
    assert_eq!(
        request.form,
        vec![
            pair("grant_type", "client_credentials"),
            pair("client_id", "client"),
            pair("client_secret", "secret"),
            pair("scope", "openid profile"),
        ]
    );
    assert_eq!(request.basic_auth, Some(pair("client", "secret")));
}

#[test]
fn answer_with_a_token() {
    assert_eq!(
        read_token_answer(200, BODY.to_string()),
        Ok(TokenResponse {
            access_token: "tok".to_string(),
            token_type: "Bearer".to_string(),
            expires_in: 3600,
        })
    );
}

#[test]
fn answer_401_is_unauthorized() {
    assert_eq!(
        read_token_answer(401, "denied".to_string()),
        Err(ZitadelCLIError::Unauthorized("denied".to_string()))
    );
    assert_eq!(
        read_token_answer(401, BODY.to_string()),
        Err(ZitadelCLIError::Unauthorized(BODY.to_string()))
    );
}

#[test]
fn answer_500_carries_status_and_body() {
    assert_eq!(
        read_token_answer(500, "boom".to_string()),
        Err(ZitadelCLIError::UnexpectedStatus { status: 500, body: "boom".to_string() })
    );
}

#[test]
fn other_statuses_are_unexpected() {
    for status in [100u16, 201, 204, 302, 400, 403, 404, 503] {
        assert_eq!(
            read_token_answer(status, BODY.to_string()),
            Err(ZitadelCLIError::UnexpectedStatus { status, body: BODY.to_string() })
        );
    }
}

#[test]
fn answer_200_needs_a_token() {
    assert!(matches!(read_token_answer(200, "not json".to_string()), Err(ZitadelCLIError::JSONParse(_))));
    assert_eq!(
        read_token_answer(200, "{\"token_type\":\"Bearer\",\"expires_in\":1}".to_string()),
        Err(ZitadelCLIError::JSONParse("missing field `access_token`".to_string()))
    );
    assert_eq!(
        read_token_answer(200, "{\"access_token\":\"t\",\"expires_in\":1}".to_string()),
        Err(ZitadelCLIError::JSONParse("missing field `token_type`".to_string()))
    );
    assert_eq!(
        read_token_answer(200, "{\"access_token\":\"t\",\"token_type\":\"Bearer\"}".to_string()),
        Err(ZitadelCLIError::JSONParse("missing field `expires_in`".to_string()))
    );
    assert_eq!(
        read_token_answer(200, "{\"access_token\":\"t\",\"token_type\":\"Bearer\",\"expires_in\":-1}".to_string()),
        Err(ZitadelCLIError::JSONParse("invalid type for field `expires_in`".to_string()))
    );
    assert_eq!(
        read_token_answer(200, "{\"access_token\":\"t\",\"token_type\":\"Bearer\",\"expires_in\":\"60\"}".to_string()),
        Err(ZitadelCLIError::JSONParse("invalid type for field `expires_in`".to_string()))
    );
}

#[test]
fn token_is_written_as_the_endpoint_sent_it() {
    let token = read_token_answer(200, BODY.to_string()).unwrap();
    assert_eq!(token.to_json().to_text(), BODY);
    assert_eq!(Credential::Token(token).to_text(), BODY);
}

#[test]
fn token_fields_are_escaped() {
    let token = TokenResponse {
        access_token: "a\"b".to_string(),
        token_type: "x\\y".to_string(),
        expires_in: 0,
    };
    assert_eq!(
        token.to_json().to_text(),
        "{\"access_token\":\"a\\\"b\",\"token_type\":\"x\\\\y\",\"expires_in\":0}"
    );
    let largest = TokenResponse {
        access_token: String::new(),
        token_type: String::new(),
        expires_in: u64::MAX,
    };
    assert_eq!(
        largest.to_json().to_text(),
        "{\"access_token\":\"\",\"token_type\":\"\",\"expires_in\":18446744073709551615}"
    );
}

#[test]
fn token_as_a_tree() {
    let token = TokenResponse {
        access_token: "tok".to_string(),
        token_type: "Bearer".to_string(),
        expires_in: 3600,
    };
    assert_eq!(
        token.to_json(),
        Json::Object(vec![
            ("access_token".to_string(), Json::Text("tok".to_string())),
            ("token_type".to_string(), Json::Text("Bearer".to_string())),
            ("expires_in".to_string(), Json::Number("3600".to_string())),
        ])
    );
    assert_eq!(TokenResponse::from_json(&token.to_json()), Ok(token));
}

#[test]
fn personal_access_token_is_written_as_a_string() {
    assert_eq!(
        Credential::PersonalAccessToken("pat-123".to_string()).to_text(),
        "\"pat-123\""
    );
    assert_eq!(
        Credential::PersonalAccessToken("pat-123".to_string()).to_json(),
        Json::Text("pat-123".to_string())
    );
}

#[test]
fn loads_the_access_token_of_a_saved_token() {
    assert_eq!(
        load_access_token(Ok(BODY.to_string())),
        Ok(Token { access_token: "tok".to_string() })
    );
}

#[test]
fn load_tells_a_missing_file_apart() {
    let missing = IoError { not_found: true, message: "No such file or directory".to_string() };
    match load_access_token(Err(missing.clone())) {
        Err(ZitadelCLIError::IO(failure)) => {
            assert!(failure.not_found);
            assert_eq!(failure, missing);
        }
        other => panic!("unexpected: {:?}", other),
    }
    let denied = IoError { not_found: false, message: "Permission denied".to_string() };
    match load_access_token(Err(denied)) {
        Err(ZitadelCLIError::IO(failure)) => assert!(!failure.not_found),
        other => panic!("unexpected: {:?}", other),
    }
}

#[test]
fn load_refuses_a_saved_personal_access_token() {
    assert!(matches!(
        load_access_token(Ok("\"pat-123\"".to_string())),
        Err(ZitadelCLIError::JSONParse(_))
    ));
    assert!(matches!(load_access_token(Ok(String::new())), Err(ZitadelCLIError::JSONParse(_))));
}
