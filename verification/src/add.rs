//! Adding a resource at the provider: the request to post, and what the
//! provider's answer means.

use crate::cli::{endpoint_of, IdpProvider, Ressource};
use crate::env::{issuer, required, Environment};
use crate::error::{
    deep_outcome, outcome, read_outcome, ErrorView, IoError, IoErrorView, ZitadelCLIError,
};
use crate::json::json_text;
use crate::payloads::idp::google::NewGoogleIdp;
use crate::payloads::organization::NewOrganization;
use crate::payloads::project::NewProject;
use crate::payloads::user::NewHumanUser;
use crate::payloads::{load_from_file, loaded, Payload};
use crate::text::join2;
use crate::token::{AccessTokenView, Token};
use vstd::prelude::*;

verus! {

/// A POST of a resource to the provider: where to, the value of the
/// `Authorization` header, and the JSON that is the body.
#[derive(Debug, Clone, PartialEq, Eq)]
pub struct EntityRequest {
    pub url: String,
    pub authorization: String,
    pub body: String,
}

/// The mathematical value of an [`EntityRequest`].
pub ghost struct EntityRequestView {
    pub url: Seq<char>,
    pub authorization: Seq<char>,
    pub body: Seq<char>,
}

impl View for EntityRequest {
    type V = EntityRequestView;

    open spec fn view(&self) -> EntityRequestView {
        EntityRequestView { url: self.url@, authorization: self.authorization@, body: self.body@ }
    }
}

/// The request that posts `body` to an endpoint of the provider at `issuer`,
/// with the access token as bearer.
pub open spec fn entity_request(
    access_token: Seq<char>,
    issuer: Seq<char>,
    endpoint: Seq<char>,
    body: Seq<char>,
) -> EntityRequestView {
    EntityRequestView { url: issuer + endpoint, authorization: "Bearer "@ + access_token, body }
}

/// The request that adds the resource that a file describes: the issuer has
/// to be configured and the file has to describe a resource of the kind,
/// which is posted as the JSON that writes it.
pub open spec fn adding<T: Payload>(
    token: AccessTokenView,
    env: Seq<(Seq<char>, Seq<char>)>,
    endpoint: Seq<char>,
    read: Result<Seq<char>, IoErrorView>,
) -> Result<EntityRequestView, ErrorView> {
    match required(env, "ISSUER"@) {
        Err(e) => Err(e),
        Ok(issuer) => match loaded::<T>(read) {
            Err(e) => Err(e),
            Ok(entity) => Ok(
                entity_request(token.access_token, issuer, endpoint, json_text(entity)),
            ),
        },
    }
}

/// The request that adds a resource: the file has to describe a resource
/// of the kind that is asked for, which is posted to the endpoint of that
/// kind.
pub open spec fn handling(
    ressource: Ressource,
    token: AccessTokenView,
    env: Seq<(Seq<char>, Seq<char>)>,
    read: Result<Seq<char>, IoErrorView>,
) -> Result<EntityRequestView, ErrorView> {
    match ressource {
        Ressource::Org { .. } => adding::<NewOrganization>(
            token,
            env,
            endpoint_of(ressource),
            read,
        ),
        Ressource::HumanUser { .. } => adding::<NewHumanUser>(
            token,
            env,
            endpoint_of(ressource),
            read,
        ),
        Ressource::Project { .. } => adding::<NewProject>(token, env, endpoint_of(ressource), read),
        Ressource::Idp { idp: IdpProvider::Google { .. } } => adding::<NewGoogleIdp>(
            token,
            env,
            endpoint_of(ressource),
            read,
        ),
    }
}

/// What the provider's answer to the POST of a resource means: with 200 or
/// 201 the resource is added, at the location that the answer names if it
/// names one; 401 says that the credential is not valid; any other status
/// is an unexpected answer.
pub open spec fn entity_answer(status: u16, location: Option<Seq<char>>, body: Seq<char>) -> Result<
    Option<Seq<char>>,
    ErrorView,
> {
    if status == 200 || status == 201 {
        Ok(location)
    } else if status == 401 {
        Err(ErrorView::Unauthorized(body))
    } else {
        Err(ErrorView::UnexpectedStatus { status, body })
    }
}

/// The request that posts `body` to an endpoint of the provider at `issuer`.
pub fn add_entity_api_call(
    access_token: &str,
    issuer: &str,
    endpoint: &str,
    body: String,
) -> (request: EntityRequest)
    ensures
        request@ == entity_request(access_token@, issuer@, endpoint@, body@),
{
    EntityRequest {
        url: join2(issuer, endpoint),
        authorization: join2("Bearer ", access_token),
        body,
    }
}

/// The request that adds the resource that a file describes, given what
/// was read from the file.
pub fn add_entity<T: Payload>(
    token: &Token,
    env: &Environment,
    endpoint: &str,
    read: Result<String, IoError>,
) -> (r: Result<EntityRequest, ZitadelCLIError>)
    ensures
        outcome(r) == adding::<T>(token@, env@, endpoint@, read_outcome(read)),
{
    let issuer = match issuer(env) {
        Ok(value) => value,
        Err(e) => return Err(e),
    };
    let entity = match load_from_file::<T>(read) {
        Ok(entity) => entity,
        Err(e) => return Err(e),
    };
    let body = entity.to_json().to_text();
    Ok(add_entity_api_call(token.access_token.as_str(), issuer.as_str(), endpoint, body))
}

/// The request that adds a resource with the access token of the
/// credential, given what was read from the file that describes the
/// resource.
pub fn handle_add_entity(
    ressource: &Ressource,
    token: &Token,
    env: &Environment,
    read: Result<String, IoError>,
) -> (r: Result<EntityRequest, ZitadelCLIError>)
    ensures
        outcome(r) == handling(*ressource, token@, env@, read_outcome(read)),
{
    let endpoint = ressource.endpoint();
    match ressource {
        Ressource::Org { .. } => add_entity::<NewOrganization>(token, env, endpoint, read),
        Ressource::HumanUser { .. } => add_entity::<NewHumanUser>(token, env, endpoint, read),
        Ressource::Project { .. } => add_entity::<NewProject>(token, env, endpoint, read),
        Ressource::Idp { idp } => match idp {
            IdpProvider::Google { .. } => add_entity::<NewGoogleIdp>(token, env, endpoint, read),
        },
    }
}

/// Says what the provider's answer to the POST of a resource means.
pub fn read_entity_answer(status: u16, location: Option<String>, body: String) -> (r: Result<
    Option<String>,
    ZitadelCLIError,
>)
    ensures
        deep_outcome(r) == entity_answer(status, location.deep_view(), body@),
{
    if status == 200 || status == 201 {
        Ok(location)
    } else if status == 401 {
        Err(ZitadelCLIError::Unauthorized(body))
    } else {
        Err(ZitadelCLIError::UnexpectedStatus { status, body })
    }
}

} // verus!
