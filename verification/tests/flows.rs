use zitadel_cli::discovery::DiscoveryConfig;
use zitadel_cli::env::Environment;
use zitadel_cli::error::{IoError, ZitadelCLIError};
use zitadel_cli::flows::authorization::callback_server::{config_with_verifier, CallbackServer};
use zitadel_cli::flows::authorization::AuthorizationFlowAppConfig;
use zitadel_cli::flows::client_credential::ClientCredentialLogin;
use zitadel_cli::flows::personal_access_token::PersonalAccessTokenLogin;
use zitadel_cli::flows::{authorization, client_credential, personal_access_token};
use zitadel_cli::flows::{save_config, Action, Event, Flow, Login};
use zitadel_cli::token::{Credential, TokenResponse};

const VERIFIER: &str = "dBjftJeZ4CVP-mB92K27uhbUJU1p1r_wW1gFWFOEjXk";
const CHALLENGE: &str = "E9Melhoa2OwvFrEMTJguCHaoeK1t8URWbuGJSstw-cM";
const METADATA: &str = "{\"issuer\":\"https://issuer.com\",\"authorization_endpoint\":\"https://issuer.com/oauth/v2/authorize\",\"token_endpoint\":\"https://issuer.com/oauth/v2/token\"}";
const TOKEN: &str = "{\"access_token\":\"tok\",\"token_type\":\"Bearer\",\"expires_in\":3600}";
const GOOD_BYE: &str = "Code received and access_token retrieved, you can close this page.";

fn environment(variables: &[(&str, &str)]) -> Environment {
    Environment::new(variables.iter().map(|(n, v)| (n.to_string(), v.to_string())).collect())
}

fn full_environment() -> Environment {
    environment(&[
        ("CONFIG_FILE_PATH", "/tmp/config.json"),
        ("ISSUER", "https://issuer.com"),
        ("CLIENT_ID", "client_id"),
        ("CLIENT_SECRET", "client_secret"),
        ("CALLBACK_SERVER_ADDRESS", "localhost:8080"),
        ("SCOPES", "openid profile email"),
        ("PERSONAL_ACCESS_TOKEN", "pat-123"),
    ])
}

fn pair(name: &str, value: &str) -> (String, String) {
    (name.to_string(), value.to_string())
}

fn authorization_config() -> AuthorizationFlowAppConfig {
    config_with_verifier(&full_environment(), VERIFIER.to_string()).unwrap()
}

fn listening() -> CallbackServer {
    let (state, _) = authorization::login(authorization_config(), false);
    let (state, _) = state.step(Event::Discovered { body: METADATA.to_string() });
    let (state, _) = state.step(Event::Bound);
    assert!(matches!(state, CallbackServer::Listening { .. }));
    state
}

fn exchanging() -> CallbackServer {
    let (state, _) = listening().step(Event::Callback { code: "abc123".to_string() });
    assert!(matches!(state, CallbackServer::Exchanging { .. }));
    state
}

fn denied() -> IoError {
    IoError { not_found: false, message: "Permission denied".to_string() }
}

#[test]
fn test_init_config_from_env() {
    let env = environment(&[
        ("CONFIG_FILE_PATH", "/tmp/config.json"),
        ("ISSUER", "https://issuer.com"),
        ("CLIENT_ID", "client_id"),
        ("CLIENT_SECRET", "client_secret"),
        ("SCOPES", "openid profile email"),
    ]);
    let config = client_credential::init_config_from_env(&env).unwrap();
    assert_eq!(config.config_file_path, "/tmp/config.json");
    assert_eq!(config.issuer, "https://issuer.com");
    assert_eq!(config.client_id, "client_id");
    assert_eq!(config.client_secret, "client_secret");
    assert_eq!(config.scopes, "openid profile email");
}

#[test]
fn client_credential_config_names_the_first_missing_variable() {
    assert_eq!(
        client_credential::init_config_from_env(&environment(&[])),
        Err(ZitadelCLIError::Configuration("CONFIG_FILE_PATH".to_string()))
    );
    assert_eq!(
        client_credential::init_config_from_env(&environment(&[
            ("CONFIG_FILE_PATH", "p"),
            ("CLIENT_ID", "c"),
            ("SCOPES", "s")
        ])),
        Err(ZitadelCLIError::Configuration("ISSUER".to_string()))
    );
    assert_eq!(
        client_credential::init_config_from_env(&environment(&[
            ("CONFIG_FILE_PATH", "p"),
            ("ISSUER", "i"),
            ("CLIENT_ID", "c"),
            ("SCOPES", "s")
        ])),
        Err(ZitadelCLIError::Configuration("CLIENT_SECRET".to_string()))
    );
}

#[test]
fn personal_access_token_config_from_env() {
    let config = personal_access_token::init_config_from_env(&full_environment()).unwrap();
    assert_eq!(config.config_file_path, "/tmp/config.json");
    assert_eq!(config.personal_access_token, "pat-123");
    assert_eq!(
        personal_access_token::init_config_from_env(&environment(&[("CONFIG_FILE_PATH", "p")])),
        Err(ZitadelCLIError::Configuration("PERSONAL_ACCESS_TOKEN".to_string()))
    );
}

#[test]
fn authorization_config_from_env() {
    let config = authorization::callback_server::init_config_from_env(&full_environment()).unwrap();
    assert_eq!(config.config_file_path, "/tmp/config.json");
    assert_eq!(config.issuer, "https://issuer.com");
    assert_eq!(config.client_id, "client_id");
    assert_eq!(config.callback_server_address, "localhost:8080");
    assert_eq!(config.scopes, "openid profile email");
    assert!(!config.is_secure);
    assert_eq!(config.code_verifier.len(), 43);
    assert_eq!(config.code_challenge, zitadel_cli::pkce::generate_code_challenge(&config.code_verifier));
    assert_eq!(
        authorization::callback_server::init_config_from_env(&environment(&[
            ("CONFIG_FILE_PATH", "p"),
            ("ISSUER", "i"),
            ("CLIENT_ID", "c"),
            ("SCOPES", "s")
        ])),
        Err(ZitadelCLIError::Configuration("CALLBACK_SERVER_ADDRESS".to_string()))
    );
}

#[test]
fn authorization_config_with_a_given_verifier() {
    let config = authorization_config();
    assert_eq!(config.code_verifier, VERIFIER);
    assert_eq!(config.code_challenge, CHALLENGE);
    assert_eq!(config.redirect_uri(), "http://localhost:8080/callback");
}

#[test]
fn redirect_is_https_for_a_secure_listener() {
    let env = environment(&[
        ("CONFIG_FILE_PATH", "/tmp/config.json"),
        ("ISSUER", "https://issuer.com"),
        ("CLIENT_ID", "client_id"),
        ("CALLBACK_SERVER_ADDRESS", "cli.example.com"),
        ("SCOPES", "openid"),
        ("IS_SECURE", "true"),
    ]);
    let config = config_with_verifier(&env, VERIFIER.to_string()).unwrap();
    assert!(config.is_secure);
    assert_eq!(config.redirect_uri(), "https://cli.example.com/callback");
}

#[test]
fn address_of_the_authorization_request() {
    let config = authorization_config();
    assert_eq!(
        config.authorization_url("https://issuer.com/oauth/v2/authorize").unwrap(),
        "https://issuer.com/oauth/v2/authorize?response_type=code&client_id=client_id&redirect_uri=http%3A%2F%2Flocalhost%3A8080%2Fcallback&scope=openid+profile+email&code_challenge=E9Melhoa2OwvFrEMTJguCHaoeK1t8URWbuGJSstw-cM&code_challenge_method=S256"
    );
    assert!(matches!(config.authorization_url("authorize"), Err(ZitadelCLIError::URLParse(_))));
}

#[test]
fn callback_with_a_code_ends_the_login_well() {
    let (state, action) = authorization::login(authorization_config(), true);
    assert_eq!(action, Action::Discover { url: "https://issuer.com/.well-known/openid-configuration".to_string() });
    assert!(!state.is_finished());

    let (state, action) = state.step(Event::Discovered { body: METADATA.to_string() });
    assert_eq!(action, Action::Listen { address: "localhost:8080".to_string() });
    assert!(matches!(state, CallbackServer::Idle { .. }));

    let (state, action) = state.step(Event::Bound);
    assert_eq!(
        action,
        Action::Authorize {
            url: "https://issuer.com/oauth/v2/authorize?response_type=code&client_id=client_id&redirect_uri=http%3A%2F%2Flocalhost%3A8080%2Fcallback&scope=openid+profile+email&code_challenge=E9Melhoa2OwvFrEMTJguCHaoeK1t8URWbuGJSstw-cM&code_challenge_method=S256".to_string(),
            open_browser: true,
        }
    );
    assert!(matches!(state, CallbackServer::Listening { .. }));

    let (state, action) = state.step(Event::Callback { code: "abc123".to_string() });
    match action {
        Action::Exchange { request } => {
            assert_eq!(request.url, "https://issuer.com/oauth/v2/token");
            assert_eq!(
                request.form,
                vec![
                    pair("grant_type", "authorization_code"),
                    pair("client_id", "client_id"),
                    pair("code", "abc123"),
                    pair("redirect_uri", "http://localhost:8080/callback"),
                    pair("code_verifier", VERIFIER),
                ]
            );
            assert_eq!(request.basic_auth, None);
        }
        other => panic!("unexpected: {:?}", other),
    }
    assert_eq!(state, CallbackServer::Exchanging { config_file_path: "/tmp/config.json".to_string() });

    let (state, action) = state.step(Event::Answered { status: 200, body: TOKEN.to_string() });
    assert_eq!(action, Action::Persist { path: "/tmp/config.json".to_string(), content: TOKEN.to_string() });
    assert_eq!(state, CallbackServer::Persisting);

    let (state, action) = state.step(Event::Persisted);
    assert_eq!(action, Action::Stop { reply: GOOD_BYE.to_string() });
    assert_eq!(state, CallbackServer::Stopping { error: None });
    assert!(!state.is_finished());

    let (state, action) = state.step(Event::Stopped);
    assert_eq!(action, Action::Nothing);
    assert_eq!(state, CallbackServer::Stopped { error: None });
    assert!(state.is_finished());
    assert_eq!(state.result(), Some(Ok(())));
}

#[test]
fn token_endpoint_401_writes_nothing_and_stops() {
    let (state, action) = exchanging().step(Event::Answered { status: 401, body: "denied".to_string() });
    let error = ZitadelCLIError::Unauthorized("denied".to_string());
    assert_eq!(
        action,
        Action::Stop {
            reply: "An error occurred: Invalid response: Invalid token or unauthorized access, please log in again: denied".to_string()
        }
    );
    assert_eq!(state, CallbackServer::Stopping { error: Some(error.clone()) });
    let (state, action) = state.step(Event::Stopped);
    assert_eq!(action, Action::Nothing);
    assert_eq!(state.result(), Some(Err(error)));
}

#[test]
fn token_endpoint_500_writes_nothing_and_stops() {
    let (state, action) = exchanging().step(Event::Answered { status: 500, body: "boom".to_string() });
    let error = ZitadelCLIError::UnexpectedStatus { status: 500, body: "boom".to_string() };
    assert_eq!(
        action,
        Action::Stop { reply: "An error occurred: Invalid response: Unhandled status code 500: boom".to_string() }
    );
    assert_eq!(state, CallbackServer::Stopping { error: Some(error.clone()) });
    let (state, _) = state.step(Event::Stopped);
    assert_eq!(state, CallbackServer::Stopped { error: Some(error.clone()) });
    assert_eq!(state.result(), Some(Err(error)));
}

#[test]
fn exchange_that_does_not_get_through_stops_the_listener() {
    let (state, action) = exchanging().step(Event::Unreachable { message: "connection refused".to_string() });
    assert_eq!(action, Action::Stop { reply: "An error occurred: Network error: connection refused".to_string() });
    assert_eq!(
        state,
        CallbackServer::Stopping { error: Some(ZitadelCLIError::Reqwest("connection refused".to_string())) }
    );
}

#[test]
fn answer_200_without_a_token_stops_the_listener() {
    let (state, action) = exchanging().step(Event::Answered { status: 200, body: "{}".to_string() });
    assert_eq!(
        action,
        Action::Stop { reply: "An error occurred: Failed to parse json:  missing field `access_token`".to_string() }
    );
    assert!(matches!(state, CallbackServer::Stopping { error: Some(ZitadelCLIError::JSONParse(_)) }));
}

#[test]
fn failed_write_stops_the_listener() {
    let (state, _) = exchanging().step(Event::Answered { status: 200, body: TOKEN.to_string() });
    let (state, action) = state.step(Event::PersistFailed { failure: denied() });
    assert_eq!(action, Action::Stop { reply: "An error occurred: IO error: Permission denied".to_string() });
    let (state, _) = state.step(Event::Stopped);
    assert_eq!(state.result(), Some(Err(ZitadelCLIError::IO(denied()))));
}

#[test]
fn second_callback_is_refused() {
    let refusal = Action::Refuse { reply: "The login does not wait for a code.".to_string() };
    let state = exchanging();
    let (after, action) = state.clone().step(Event::Callback { code: "again".to_string() });
    assert_eq!(action, refusal);
    assert_eq!(after, state);
    let (state, _) = state.step(Event::Answered { status: 200, body: TOKEN.to_string() });
    let (after, action) = state.clone().step(Event::Callback { code: "again".to_string() });
    assert_eq!(action, refusal);
    assert_eq!(after, state);
    let (state, _) = state.step(Event::Persisted);
    let (after, action) = state.clone().step(Event::Callback { code: "again".to_string() });
    assert_eq!(action, refusal);
    assert_eq!(after, state);
    let (state, _) = state.step(Event::Stopped);
    let (after, action) = state.clone().step(Event::Callback { code: "late".to_string() });
    assert_eq!(action, refusal);
    assert_eq!(after, state);
    assert_eq!(after.result(), Some(Ok(())));
}

#[test]
fn events_out_of_turn_change_nothing() {
    let state = listening();
    for event in [
        Event::Bound,
        Event::Persisted,
        Event::Stopped,
        Event::Answered { status: 200, body: TOKEN.to_string() },
        Event::Discovered { body: METADATA.to_string() },
        Event::Unreachable { message: "m".to_string() },
        Event::BindFailed { failure: denied() },
        Event::PersistFailed { failure: denied() },
    ] {
        let (after, action) = state.clone().step(event);
        assert_eq!(action, Action::Nothing);
        assert_eq!(after, state);
    }
}

#[test]
fn ended_login_stays_ended() {
    let (state, _) = exchanging().step(Event::Answered { status: 500, body: "boom".to_string() });
    let (state, _) = state.step(Event::Stopped);
    assert!(state.is_finished());
    let (after, action) = state.clone().step(Event::Callback { code: "abc123".to_string() });
    assert_eq!(action, Action::Refuse { reply: "The login does not wait for a code.".to_string() });
    assert_eq!(after, state);
    let (after, action) = state.clone().step(Event::Answered { status: 200, body: TOKEN.to_string() });
    assert_eq!(action, Action::Nothing);
    assert_eq!(after, state);
    let failed = CallbackServer::Failed { reason: ZitadelCLIError::Reqwest("x".to_string()) };
    let (after, action) = failed.clone().step(Event::Bound);
    assert_eq!(action, Action::Nothing);
    assert_eq!(after, failed);
    assert_eq!(failed.result(), Some(Err(ZitadelCLIError::Reqwest("x".to_string()))));
}

#[test]
fn bind_failure_fails_before_listening() {
    let (state, _) = authorization::login(authorization_config(), false);
    let (state, _) = state.step(Event::Discovered { body: METADATA.to_string() });
    let in_use = IoError { not_found: false, message: "Address already in use".to_string() };
    let (state, action) = state.step(Event::BindFailed { failure: in_use.clone() });
    assert_eq!(action, Action::Nothing);
    assert_eq!(state, CallbackServer::Failed { reason: ZitadelCLIError::IO(in_use) });
    assert!(state.is_finished());
}

#[test]
fn discovery_failure_fails_before_listening() {
    let (state, _) = authorization::login(authorization_config(), false);
    let (failed, action) = state.clone().step(Event::Unreachable { message: "dns".to_string() });
    assert_eq!(action, Action::Nothing);
    assert_eq!(failed, CallbackServer::Failed { reason: ZitadelCLIError::Reqwest("dns".to_string()) });
    let (failed, action) = state.clone().step(Event::Discovered { body: "{\"token_endpoint\":\"T\"}".to_string() });
    assert_eq!(action, Action::Nothing);
    assert_eq!(
        failed,
        CallbackServer::Failed {
            reason: ZitadelCLIError::JSONParse("missing field `authorization_endpoint`".to_string())
        }
    );
}

#[test]
fn listener_is_bound_before_the_address_is_made() {
    let metadata = "{\"authorization_endpoint\":\"not a url\",\"token_endpoint\":\"T\"}";
    let (state, _) = authorization::login(authorization_config(), false);
    let (idle, action) = state.step(Event::Discovered { body: metadata.to_string() });
    assert_eq!(action, Action::Listen { address: "localhost:8080".to_string() });
    assert!(matches!(idle, CallbackServer::Idle { .. }));

    let (state, action) = idle.clone().step(Event::Bound);
    let error = ZitadelCLIError::URLParse("relative URL without a base".to_string());
    assert_eq!(
        action,
        Action::Stop {
            reply: "An error occurred: Failed to parse url: relative URL without a base".to_string()
        }
    );
    assert_eq!(state, CallbackServer::Stopping { error: Some(error.clone()) });
    assert!(!state.is_finished());
    let (state, action) = state.step(Event::Stopped);
    assert_eq!(action, Action::Nothing);
    assert_eq!(state.result(), Some(Err(error)));

    let in_use = IoError { not_found: false, message: "Address already in use".to_string() };
    let (state, action) = idle.step(Event::BindFailed { failure: in_use.clone() });
    assert_eq!(action, Action::Nothing);
    assert_eq!(state, CallbackServer::Failed { reason: ZitadelCLIError::IO(in_use) });
}

#[test]
fn only_the_first_waits_of_the_listener_are_unfinished() {
    let discovery = DiscoveryConfig { authorization_endpoint: "A".to_string(), token_endpoint: "T".to_string() };
    let state = CallbackServer::Listening { config: authorization_config(), discovery };
    assert!(!state.is_finished());
    assert_eq!(state.result(), None);
    assert_eq!(CallbackServer::Persisting.result(), None);
}

#[test]
fn client_credentials_login_saves_the_token() {
    let config = client_credential::init_config_from_env(&full_environment()).unwrap();
    let (state, action) = client_credential::login(config);
    assert_eq!(action, Action::Discover { url: "https://issuer.com/.well-known/openid-configuration".to_string() });

    let (state, action) = state.step(Event::Discovered { body: METADATA.to_string() });
    match action {
        Action::Exchange { request } => {
            assert_eq!(request.url, "https://issuer.com/oauth/v2/token");
            assert_eq!(
                request.form,
                vec![
                    pair("grant_type", "client_credentials"),
                    pair("client_id", "client_id"),
                    pair("client_secret", "client_secret"),
                    pair("scope", "openid profile email"),
                ]
            );
            assert_eq!(request.basic_auth, Some(pair("client_id", "client_secret")));
        }
        other => panic!("unexpected: {:?}", other),
    }
    assert_eq!(state, ClientCredentialLogin::Exchanging { config_file_path: "/tmp/config.json".to_string() });

    let (state, action) = state.step(Event::Answered { status: 200, body: TOKEN.to_string() });
    assert_eq!(action, Action::Persist { path: "/tmp/config.json".to_string(), content: TOKEN.to_string() });

    let (state, action) = state.step(Event::Persisted);
    assert_eq!(action, Action::Nothing);
    assert!(state.is_finished());
    assert_eq!(state.result(), Some(Ok(())));
}

#[test]
fn client_credentials_login_fails_without_writing() {
    let begin = || {
        let config = client_credential::init_config_from_env(&full_environment()).unwrap();
        let (state, _) = client_credential::login(config);
        state
    };
    let (state, action) = begin().step(Event::Unreachable { message: "dns".to_string() });
    assert_eq!(action, Action::Nothing);
    assert_eq!(state.result(), Some(Err(ZitadelCLIError::Reqwest("dns".to_string()))));

    let (state, action) = begin().step(Event::Discovered { body: "{}".to_string() });
    assert_eq!(action, Action::Nothing);
    assert!(matches!(state.result(), Some(Err(ZitadelCLIError::JSONParse(_)))));

    let (state, _) = begin().step(Event::Discovered { body: METADATA.to_string() });
    let (state, action) = state.step(Event::Answered { status: 401, body: "denied".to_string() });
    assert_eq!(action, Action::Nothing);
    assert_eq!(state.result(), Some(Err(ZitadelCLIError::Unauthorized("denied".to_string()))));

    let (state, _) = begin().step(Event::Discovered { body: METADATA.to_string() });
    let (state, action) = state.step(Event::Answered { status: 500, body: "boom".to_string() });
    assert_eq!(action, Action::Nothing);
    assert_eq!(
        state.result(),
        Some(Err(ZitadelCLIError::UnexpectedStatus { status: 500, body: "boom".to_string() }))
    );

    let (state, _) = begin().step(Event::Discovered { body: METADATA.to_string() });
    let (state, _) = state.step(Event::Answered { status: 200, body: TOKEN.to_string() });
    let (state, action) = state.step(Event::PersistFailed { failure: denied() });
    assert_eq!(action, Action::Nothing);
    assert_eq!(state.result(), Some(Err(ZitadelCLIError::IO(denied()))));
}

#[test]
fn personal_access_token_login_saves_the_token_as_it_is() {
    let config = personal_access_token::init_config_from_env(&full_environment()).unwrap();
    let (state, action) = personal_access_token::login(config);
    assert_eq!(action, Action::Persist { path: "/tmp/config.json".to_string(), content: "\"pat-123\"".to_string() });
    assert_eq!(state, PersonalAccessTokenLogin::Persisting);
    assert!(!state.is_finished());
    let (state, action) = state.step(Event::Persisted);
    assert_eq!(action, Action::Nothing);
    assert_eq!(state, PersonalAccessTokenLogin::Finished { error: None });
    assert_eq!(state.result(), Some(Ok(())));
}

#[test]
fn personal_access_token_login_reports_a_failed_write() {
    let config = personal_access_token::init_config_from_env(&full_environment()).unwrap();
    let (state, _) = personal_access_token::login(config);
    let (waiting, action) = state.clone().step(Event::Bound);
    assert_eq!(action, Action::Nothing);
    assert_eq!(waiting, state);
    let (state, action) = state.step(Event::PersistFailed { failure: denied() });
    assert_eq!(action, Action::Nothing);
    assert_eq!(state.clone().result(), Some(Err(ZitadelCLIError::IO(denied()))));
    let (after, _) = state.clone().step(Event::Persisted);
    assert_eq!(after, state);
}

#[test]
fn save_config_writes_the_credential_as_json() {
    let token = TokenResponse { access_token: "tok".to_string(), token_type: "Bearer".to_string(), expires_in: 3600 };
    assert_eq!(
        save_config("/tmp/config.json".to_string(), &Credential::Token(token)),
        Action::Persist { path: "/tmp/config.json".to_string(), content: TOKEN.to_string() }
    );
    assert_eq!(
        save_config("c.json".to_string(), &Credential::PersonalAccessToken("p\"t".to_string())),
        Action::Persist { path: "c.json".to_string(), content: "\"p\\\"t\"".to_string() }
    );
}

#[test]
fn flow_begins_its_own_login() {
    let env = full_environment();
    let (state, action) = Flow::PersonalAccessToken.login(true, &env);
    assert!(matches!(state, Login::PersonalAccessToken(PersonalAccessTokenLogin::Persisting)));
    assert_eq!(action, Action::Persist { path: "/tmp/config.json".to_string(), content: "\"pat-123\"".to_string() });

    let (state, action) = Flow::ClientCredentials.login(true, &env);
    assert!(matches!(state, Login::ClientCredentials(ClientCredentialLogin::Discovering { .. })));
    assert_eq!(action, Action::Discover { url: "https://issuer.com/.well-known/openid-configuration".to_string() });

    let (state, action) = Flow::AuthorizationCode.login(true, &env);
    assert_eq!(action, Action::Discover { url: "https://issuer.com/.well-known/openid-configuration".to_string() });
    match state {
        Login::AuthorizationCode(CallbackServer::Discovering { config, open_browser }) => {
            assert!(open_browser);
            assert_eq!(config.client_id, "client_id");
            assert_eq!(config.code_verifier.len(), 43);
        }
        other => panic!("unexpected: {:?}", other),
    }
}

#[test]
fn flow_without_configuration_ends_at_once() {
    let env = environment(&[("CONFIG_FILE_PATH", "/tmp/config.json")]);
    for flow in [Flow::AuthorizationCode, Flow::ClientCredentials] {
        let (state, action) = flow.login(false, &env);
        assert_eq!(action, Action::Nothing);
        assert!(state.is_finished());
        assert_eq!(state.result(), Some(Err(ZitadelCLIError::Configuration("ISSUER".to_string()))));
    }
    let (state, action) = Flow::PersonalAccessToken.login(false, &env);
    assert_eq!(action, Action::Nothing);
    assert_eq!(state.result(), Some(Err(ZitadelCLIError::Configuration("PERSONAL_ACCESS_TOKEN".to_string()))));
}

#[test]
fn login_runs_through_the_dispatcher() {
    let (state, _) = Flow::ClientCredentials.login(false, &full_environment());
    let (state, _) = state.step(Event::Discovered { body: METADATA.to_string() });
    let (state, action) = state.step(Event::Answered { status: 200, body: TOKEN.to_string() });
    assert_eq!(action, Action::Persist { path: "/tmp/config.json".to_string(), content: TOKEN.to_string() });
    assert!(!state.is_finished());
    let (state, _) = state.step(Event::Persisted);
    assert!(state.is_finished());
    assert_eq!(state.result(), Some(Ok(())));

    let (state, _) = Flow::AuthorizationCode.login(false, &full_environment());
    let (state, _) = state.step(Event::Discovered { body: METADATA.to_string() });
    let (state, _) = state.step(Event::Bound);
    let (state, _) = state.step(Event::Callback { code: "abc123".to_string() });
    let (state, _) = state.step(Event::Answered { status: 401, body: "denied".to_string() });
    assert!(!state.is_finished());
    let (state, _) = state.step(Event::Stopped);
    assert_eq!(state.result(), Some(Err(ZitadelCLIError::Unauthorized("denied".to_string()))));
}
