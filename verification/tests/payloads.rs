use zitadel_cli::error::{IoError, ZitadelCLIError};
use zitadel_cli::json::{parse, Json};
use zitadel_cli::payloads::idp::google::{NewGoogleIdp, NewGoogleIdpProviderOptions};
use zitadel_cli::payloads::organization::{Admin, NewOrganization};
use zitadel_cli::payloads::project::NewProject;
use zitadel_cli::payloads::user::{
    Email, HashedPassword, Human, IDPLink, Metadata, NewHumanUser, Organization, Password, Phone,
    Profile, ReturnCode, SendCode,
};
use zitadel_cli::payloads::{load_from_file, Payload};

const ADD_USER: &str = r#"{
  "userId": "d654e6ba-70a3-48ef-a95d-37c8d8a7901a",
  "username": "minnie-mouse",
  "organization": { "orgId": "69629023906488334" },
  "profile": {
    "givenName": "Minnie",
    "familyName": "Mouse",
    "nickName": "Mini",
    "displayName": "Minnie Mouse",
    "preferredLanguage": "en",
    "gender": "GENDER_FEMALE"
  },
  "email": {
    "email": "mini@mouse.com",
    "sendCode": { "urlTemplate": "https://example.com/email/verify?userID={{.UserID}}&code={{.Code}}" },
    "isVerified": false
  },
  "phone": { "phone": "+41791234567", "returnCode": {}, "isVerified": true },
  "metadata": [ { "key": "my-key", "value": "VGhpcyBpcyBteSB0ZXN0IHZhbHVl" } ],
  "password": { "password": "Secr3tP4ssw0rd!", "changeRequired": true },
  "idpLinks": [ { "idpId": "d654e6ba", "userId": "6516849804890468048461403518", "userName": "user@external.com" } ],
  "totpSecret": "TJOPWSDYILLHXFV4MLKNNJOWFG7VSDCK"
}"#;

fn some(s: &str) -> Option<String> {
    Some(s.to_string())
}

fn expected_user() -> NewHumanUser {
    NewHumanUser {
        user_id: some("d654e6ba-70a3-48ef-a95d-37c8d8a7901a"),
        username: some("minnie-mouse"),
        organization: Some(Organization { org_id: some("69629023906488334"), org_domain: None }),
        profile: Profile {
            given_name: "Minnie".to_string(),
            family_name: "Mouse".to_string(),
            nick_name: some("Mini"),
            display_name: some("Minnie Mouse"),
            preferred_language: some("en"),
            gender: some("GENDER_FEMALE"),
        },
        email: Email {
            email: "mini@mouse.com".to_string(),
            send_code: Some(SendCode {
                url_template: some("https://example.com/email/verify?userID={{.UserID}}&code={{.Code}}"),
            }),
            return_code: None,
            is_verified: Some(false),
        },
        phone: Some(Phone {
            phone: some("+41791234567"),
            send_code: None,
            return_code: Some(ReturnCode {}),
            is_verified: Some(true),
        }),
        metadata: Some(vec![Metadata {
            key: "my-key".to_string(),
            value: "VGhpcyBpcyBteSB0ZXN0IHZhbHVl".to_string(),
        }]),
        password: Some(Password { password: "Secr3tP4ssw0rd!".to_string(), change_required: Some(true) }),
        hashed_password: None,
        idp_links: Some(vec![IDPLink {
            idp_id: some("d654e6ba"),
            user_id: some("6516849804890468048461403518"),
            user_name: some("user@external.com"),
        }]),
        totp_secret: some("TJOPWSDYILLHXFV4MLKNNJOWFG7VSDCK"),
    }
}

#[test]
fn test_load_from_file() {
    load_from_file::<NewHumanUser>(Ok(ADD_USER.to_string())).unwrap();
}

#[test]
fn loads_every_field_of_a_user() {
    assert_eq!(load_from_file::<NewHumanUser>(Ok(ADD_USER.to_string())), Ok(expected_user()));
}

#[test]
fn load_hands_on_the_failure_of_the_read() {
    let missing = IoError { not_found: true, message: "No such file or directory".to_string() };
    assert_eq!(
        load_from_file::<NewHumanUser>(Err(missing.clone())),
        Err(ZitadelCLIError::IO(missing))
    );
}

#[test]
fn load_refuses_what_is_no_json() {
    assert!(matches!(
        load_from_file::<NewHumanUser>(Ok("userId: 1".to_string())),
        Err(ZitadelCLIError::JSONParse(_))
    ));
}

#[test]
fn user_needs_profile_and_email() {
    assert_eq!(
        load_from_file::<NewHumanUser>(Ok("{}".to_string())),
        Err(ZitadelCLIError::JSONParse("missing field `profile`".to_string()))
    );
    assert_eq!(
        load_from_file::<NewHumanUser>(Ok(
            "{\"profile\":{\"givenName\":\"a\",\"familyName\":\"b\"}}".to_string()
        )),
        Err(ZitadelCLIError::JSONParse("missing field `email`".to_string()))
    );
    assert_eq!(
        load_from_file::<NewHumanUser>(Ok(
            "{\"profile\":{\"givenName\":\"a\"},\"email\":{\"email\":\"e\"}}".to_string()
        )),
        Err(ZitadelCLIError::JSONParse("missing field `familyName`".to_string()))
    );
}

#[test]
fn smallest_user() {
    let user = load_from_file::<NewHumanUser>(Ok(
        "{\"profile\":{\"givenName\":\"a\",\"familyName\":\"b\"},\"email\":{\"email\":\"e\"},\"more\":1}"
            .to_string(),
    ))
    .unwrap();
    assert_eq!(user.user_id, None);
    assert_eq!(user.organization, None);
    assert_eq!(user.profile.given_name, "a");
    assert_eq!(user.profile.nick_name, None);
    assert_eq!(user.email.email, "e");
    assert_eq!(user.email.is_verified, None);
    assert_eq!(user.metadata, None);
    assert_eq!(
        user.to_json().to_text(),
        "{\"userId\":null,\"username\":null,\"organization\":null,\"profile\":{\"givenName\":\"a\",\"familyName\":\"b\",\"nickName\":null,\"displayName\":null,\"preferredLanguage\":null,\"gender\":null},\"email\":{\"email\":\"e\",\"sendCode\":null,\"returnCode\":null,\"isVerified\":null},\"phone\":null,\"metadata\":null,\"password\":null,\"hashedPassword\":null,\"idpLinks\":null,\"totpSecret\":null}"
    );
}

#[test]
fn null_is_a_field_that_is_not_set() {
    let organization = Organization::from_json(&parse("{\"orgId\":null,\"orgDomain\":\"d\"}").unwrap()).unwrap();
    assert_eq!(organization, Organization { org_id: None, org_domain: some("d") });
}

#[test]
fn fields_have_kinds() {
    assert_eq!(
        Organization::from_json(&parse("{\"orgId\":5}").unwrap()),
        Err(ZitadelCLIError::JSONParse("invalid type for field `orgId`".to_string()))
    );
    assert_eq!(
        Password::from_json(&parse("{\"password\":\"p\",\"changeRequired\":\"yes\"}").unwrap()),
        Err(ZitadelCLIError::JSONParse("invalid type for field `changeRequired`".to_string()))
    );
    assert_eq!(
        Email::from_json(&parse("{\"email\":\"e\",\"sendCode\":[]}").unwrap()),
        Err(ZitadelCLIError::JSONParse("invalid type: expected an object".to_string()))
    );
    assert_eq!(
        Organization::from_json(&parse("[]").unwrap()),
        Err(ZitadelCLIError::JSONParse("invalid type: expected an object".to_string()))
    );
    assert_eq!(
        ReturnCode::from_json(&Json::Null),
        Err(ZitadelCLIError::JSONParse("invalid type: expected an object".to_string()))
    );
    assert_eq!(ReturnCode::from_json(&parse("{\"x\":1}").unwrap()), Ok(ReturnCode {}));
}

#[test]
fn lists_are_read_item_by_item() {
    let user = "{\"profile\":{\"givenName\":\"a\",\"familyName\":\"b\"},\"email\":{\"email\":\"e\"},\"metadata\":[{\"key\":\"k1\",\"value\":\"v1\"},{\"key\":\"k2\",\"value\":\"v2\"}],\"idpLinks\":[]}";
    let user = Human::from_json(&parse(user).unwrap()).unwrap();
    assert_eq!(
        user.metadata,
        Some(vec![
            Metadata { key: "k1".to_string(), value: "v1".to_string() },
            Metadata { key: "k2".to_string(), value: "v2".to_string() },
        ])
    );
    assert_eq!(user.idp_links, Some(vec![]));
    let broken = "{\"profile\":{\"givenName\":\"a\",\"familyName\":\"b\"},\"email\":{\"email\":\"e\"},\"metadata\":[{\"key\":\"k1\",\"value\":\"v1\"},{\"key\":\"k2\"}]}";
    assert_eq!(
        Human::from_json(&parse(broken).unwrap()),
        Err(ZitadelCLIError::JSONParse("missing field `value`".to_string()))
    );
    let no_list = "{\"profile\":{\"givenName\":\"a\",\"familyName\":\"b\"},\"email\":{\"email\":\"e\"},\"metadata\":{}}";
    assert_eq!(
        Human::from_json(&parse(no_list).unwrap()),
        Err(ZitadelCLIError::JSONParse("invalid type for field `metadata`".to_string()))
    );
}

#[test]
fn hashed_password_of_a_user() {
    let password = HashedPassword::from_json(&parse("{\"hash\":\"$2a$12$x\"}").unwrap()).unwrap();
    assert_eq!(password, HashedPassword { hash: "$2a$12$x".to_string(), change_required: None });
    assert_eq!(password.to_json().to_text(), "{\"hash\":\"$2a$12$x\",\"changeRequired\":null}");
}

#[test]
fn organization_with_administrators() {
    let text = "{\"name\":\"ZITADEL\",\"admins\":[{\"userId\":\"1\",\"roles\":[\"ORG_OWNER\",\"ORG_USER_MANAGER\"]},{\"human\":{\"profile\":{\"givenName\":\"a\",\"familyName\":\"b\"},\"email\":{\"email\":\"e\"}}}]}";
    let organization = load_from_file::<NewOrganization>(Ok(text.to_string())).unwrap();
    assert_eq!(organization.name, "ZITADEL");
    let admins = organization.admins.clone().unwrap();
    assert_eq!(admins.len(), 2);
    assert_eq!(
        admins[0],
        Admin {
            user_id: some("1"),
            human: None,
            roles: Some(vec!["ORG_OWNER".to_string(), "ORG_USER_MANAGER".to_string()]),
        }
    );
    assert_eq!(admins[1].user_id, None);
    assert_eq!(admins[1].human.as_ref().unwrap().profile.family_name, "b");
    assert_eq!(admins[1].roles, None);
    assert_eq!(
        load_from_file::<NewOrganization>(Ok("{\"name\":\"Z\",\"admins\":[{\"roles\":[\"A\",1]}]}".to_string())),
        Err(ZitadelCLIError::JSONParse("invalid type for field `roles`".to_string()))
    );
    assert_eq!(
        load_from_file::<NewOrganization>(Ok("{\"admins\":[]}".to_string())),
        Err(ZitadelCLIError::JSONParse("missing field `name`".to_string()))
    );
}

#[test]
fn project_is_written_in_the_order_of_its_fields() {
    let project = load_from_file::<NewProject>(Ok(
        "{\"hasProjectCheck\":true,\"name\":\"p\",\"privateLabelingSetting\":\"PRIVATE_LABELING_SETTING_UNSPECIFIED\"}".to_string(),
    ))
    .unwrap();
    assert_eq!(
        project,
        NewProject {
            name: "p".to_string(),
            project_role_assertion: None,
            project_role_check: None,
            has_project_check: Some(true),
            private_labeling_setting: some("PRIVATE_LABELING_SETTING_UNSPECIFIED"),
        }
    );
    assert_eq!(
        project.to_json().to_text(),
        "{\"name\":\"p\",\"projectRoleAssertion\":null,\"projectRoleCheck\":null,\"hasProjectCheck\":true,\"privateLabelingSetting\":\"PRIVATE_LABELING_SETTING_UNSPECIFIED\"}"
    );
}

#[test]
fn google_provider() {
    let text = "{\"name\":\"Google\",\"clientId\":\"id\",\"clientSecret\":\"s\",\"scopes\":[\"openid\",\"email\"],\"providerOptions\":{\"isLinkingAllowed\":true,\"autoLinking\":\"AUTO_LINKING_OPTION_EMAIL\"}}";
    let provider = load_from_file::<NewGoogleIdp>(Ok(text.to_string())).unwrap();
    assert_eq!(
        provider,
        NewGoogleIdp {
            name: some("Google"),
            client_id: some("id"),
            client_secret: some("s"),
            scopes: Some(vec!["openid".to_string(), "email".to_string()]),
            provider_options: Some(NewGoogleIdpProviderOptions {
                is_linking_allowed: Some(true),
                is_creation_allowed: None,
                is_auto_creation: None,
                is_auto_update: None,
                auto_linking: some("AUTO_LINKING_OPTION_EMAIL"),
            }),
        }
    );
    assert_eq!(
        provider.to_json().to_text(),
        "{\"name\":\"Google\",\"clientId\":\"id\",\"clientSecret\":\"s\",\"scopes\":[\"openid\",\"email\"],\"providerOptions\":{\"isLinkingAllowed\":true,\"isCreationAllowed\":null,\"isAutoCreation\":null,\"isAutoUpdate\":null,\"autoLinking\":\"AUTO_LINKING_OPTION_EMAIL\"}}"
    );
    assert_eq!(load_from_file::<NewGoogleIdp>(Ok("{}".to_string())).unwrap().name, None);
}

#[test]
fn written_documents_describe_their_resources() {
    let user = expected_user();
    assert_eq!(NewHumanUser::from_json(&user.to_json()), Ok(user));
    let project = NewProject {
        name: "p".to_string(),
        project_role_assertion: Some(false),
        project_role_check: None,
        has_project_check: Some(true),
        private_labeling_setting: None,
    };
    assert_eq!(NewProject::from_json(&project.to_json()), Ok(project));
    let organization = NewOrganization {
        name: "o".to_string(),
        admins: Some(vec![Admin { user_id: some("1"), human: None, roles: Some(vec![]) }]),
    };
    assert_eq!(NewOrganization::from_json(&organization.to_json()), Ok(organization));
    let provider = NewGoogleIdp {
        name: None,
        client_id: some("id"),
        client_secret: None,
        scopes: Some(vec!["openid".to_string()]),
        provider_options: None,
    };
    assert_eq!(NewGoogleIdp::from_json(&provider.to_json()), Ok(provider));
    assert_eq!(
        Organization { org_id: None, org_domain: some("d") }.to_json(),
        Json::Object(vec![
            ("orgId".to_string(), Json::Null),
            ("orgDomain".to_string(), Json::Text("d".to_string())),
        ])
    );
}

#[test]
fn written_user_reads_back() {
    let user = expected_user();
    let written = user.to_json().to_text();
    assert_eq!(load_from_file::<NewHumanUser>(Ok(written)), Ok(user));
}
