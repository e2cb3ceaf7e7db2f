use zitadel_cli::add::{add_entity, add_entity_api_call, handle_add_entity, read_entity_answer, EntityRequest};
use zitadel_cli::cli::{IdpProvider, Ressource};
use zitadel_cli::env::Environment;
use zitadel_cli::error::{IoError, ZitadelCLIError};
use zitadel_cli::payloads::project::NewProject;
use zitadel_cli::token::{load_access_token, Token};

fn user() -> Ressource {
    Ressource::HumanUser { file_path: "user.json".to_string() }
}

fn project() -> Ressource {
    Ressource::Project { file_path: "project.json".to_string() }
}

fn organization() -> Ressource {
    Ressource::Org { file_path: "organization.json".to_string() }
}

fn google() -> Ressource {
    Ressource::Idp { idp: IdpProvider::Google { file_path: "google.json".to_string() } }
}

fn token() -> Token {
    Token { access_token: "tok".to_string() }
}

const CREDENTIAL: &str = "{\"access_token\":\"tok\",\"token_type\":\"Bearer\",\"expires_in\":3600}";

fn issuer_env() -> Environment {
    Environment::new(vec![("ISSUER".to_string(), "https://issuer.com".to_string())])
}

#[test]
fn request_to_add_an_entity() {
    assert_eq!(
        add_entity_api_call("tok", "https://issuer.com", "/v2/organizations", "{}".to_string()),
        EntityRequest {
            url: "https://issuer.com/v2/organizations".to_string(),
            authorization: "Bearer tok".to_string(),
            body: "{}".to_string(),
        }
    );
}

#[test]
fn adds_what_the_file_describes() {
    let token = Token { access_token: "tok".to_string() };
    let request = add_entity::<NewProject>(
        &token,
        &issuer_env(),
        "/management/v1/projects",
        Ok("{ \"name\": \"p\", \"unknown\": 1 }".to_string()),
    )
    .unwrap();
    assert_eq!(request.url, "https://issuer.com/management/v1/projects");
    assert_eq!(request.authorization, "Bearer tok");
    assert_eq!(
        request.body,
        "{\"name\":\"p\",\"projectRoleAssertion\":null,\"projectRoleCheck\":null,\"hasProjectCheck\":null,\"privateLabelingSetting\":null}"
    );
}

#[test]
fn add_needs_the_issuer_first() {
    let token = Token { access_token: "tok".to_string() };
    assert_eq!(
        add_entity::<NewProject>(&token, &Environment::new(vec![]), "/x", Ok("not json".to_string())),
        Err(ZitadelCLIError::Configuration("ISSUER".to_string()))
    );
    assert!(matches!(
        add_entity::<NewProject>(&token, &issuer_env(), "/x", Ok("not json".to_string())),
        Err(ZitadelCLIError::JSONParse(_))
    ));
    let missing = IoError { not_found: true, message: "No such file".to_string() };
    assert_eq!(
        add_entity::<NewProject>(&token, &issuer_env(), "/x", Err(missing.clone())),
        Err(ZitadelCLIError::IO(missing))
    );
}

#[test]
fn handles_each_kind_at_its_endpoint() {
    let described = "{\"profile\":{\"givenName\":\"a\",\"familyName\":\"b\"},\"email\":{\"email\":\"e\"}}";
    let request = handle_add_entity(&user(), &token(), &issuer_env(), Ok(described.to_string())).unwrap();
    assert_eq!(request.url, "https://issuer.com/v2/users/human");
    assert_eq!(request.authorization, "Bearer tok");
    let request = handle_add_entity(&project(), &token(), &issuer_env(), Ok("{\"name\":\"p\"}".to_string())).unwrap();
    assert_eq!(request.url, "https://issuer.com/management/v1/projects");
    let request = handle_add_entity(&organization(), &token(), &issuer_env(), Ok("{\"name\":\"o\"}".to_string())).unwrap();
    assert_eq!(request.url, "https://issuer.com/v2/organizations");
    assert_eq!(request.body, "{\"name\":\"o\",\"admins\":null}");
    let request = handle_add_entity(&google(), &token(), &issuer_env(), Ok("{}".to_string())).unwrap();
    assert_eq!(request.url, "https://issuer.com/management/v1/idps/google");
    assert_eq!(
        handle_add_entity(&project(), &token(), &issuer_env(), Ok("{\"name\":1}".to_string())),
        Err(ZitadelCLIError::JSONParse("invalid type for field `name`".to_string()))
    );
}

#[test]
fn handling_takes_the_token_of_the_credential() {
    let token = load_access_token(Ok(CREDENTIAL.to_string())).unwrap();
    let request =
        handle_add_entity(&project(), &token, &issuer_env(), Ok("{\"name\":\"p\"}".to_string())).unwrap();
    assert_eq!(request.authorization, "Bearer tok");
    let missing = IoError { not_found: true, message: "No such file".to_string() };
    assert_eq!(
        handle_add_entity(&project(), &token, &issuer_env(), Err(missing.clone())),
        Err(ZitadelCLIError::IO(missing))
    );
    assert_eq!(
        handle_add_entity(&project(), &token, &Environment::new(vec![]), Ok("{}".to_string())),
        Err(ZitadelCLIError::Configuration("ISSUER".to_string()))
    );
}

#[test]
fn answer_to_an_added_entity() {
    assert_eq!(read_entity_answer(201, Some("/v2/users/1".to_string()), String::new()), Ok(Some("/v2/users/1".to_string())));
    assert_eq!(read_entity_answer(200, None, "{}".to_string()), Ok(None));
    assert_eq!(
        read_entity_answer(401, Some("x".to_string()), "denied".to_string()),
        Err(ZitadelCLIError::Unauthorized("denied".to_string()))
    );
    assert_eq!(
        read_entity_answer(409, None, "exists".to_string()),
        Err(ZitadelCLIError::UnexpectedStatus { status: 409, body: "exists".to_string() })
    );
    assert_eq!(
        read_entity_answer(204, None, String::new()),
        Err(ZitadelCLIError::UnexpectedStatus { status: 204, body: String::new() })
    );
}
