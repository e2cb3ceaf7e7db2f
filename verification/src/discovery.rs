//! The metadata that an OpenID Connect provider publishes about itself.

use crate::error::{outcome, ErrorView, ZitadelCLIError};
use crate::json::{parse, parsed, Json, JsonValue};
use crate::text::join2;
use vstd::prelude::*;

verus! {

/// What the client uses of a provider's metadata.
#[derive(Debug, Clone, PartialEq, Eq)]
pub struct DiscoveryConfig {
    /// Where the user is sent to log in.
    pub authorization_endpoint: String,
    /// Where codes and client credentials are exchanged for tokens.
    pub token_endpoint: String,
}

/// The mathematical value of a [`DiscoveryConfig`].
pub ghost struct DiscoveryView {
    pub authorization_endpoint: Seq<char>,
    pub token_endpoint: Seq<char>,
}

impl View for DiscoveryConfig {
    type V = DiscoveryView;

    open spec fn view(&self) -> DiscoveryView {
        DiscoveryView {
            authorization_endpoint: self.authorization_endpoint@,
            token_endpoint: self.token_endpoint@,
        }
    }
}

/// The address of a provider's metadata.
pub open spec fn discovery_address(issuer: Seq<char>) -> Seq<char> {
    issuer + "/.well-known/openid-configuration"@
}

/// The metadata in a JSON document: the document has to be an object with
/// both endpoints as strings; what else it holds is passed over.
pub open spec fn discovery_of(document: JsonValue) -> Result<DiscoveryView, ErrorView> {
    match document.text_field("authorization_endpoint"@) {
        Err(e) => Err(e),
        Ok(authorization_endpoint) => match document.text_field("token_endpoint"@) {
            Err(e) => Err(e),
            Ok(token_endpoint) => Ok(DiscoveryView { authorization_endpoint, token_endpoint }),
        },
    }
}

/// The metadata in the text of a JSON document.
pub open spec fn discovery_in(body: Seq<char>) -> Result<DiscoveryView, ErrorView> {
    match parsed(body) {
        Err(e) => Err(e),
        Ok(document) => discovery_of(document),
    }
}

/// The address of the metadata of the provider at `issuer`.
pub fn discovery_url(issuer: &str) -> (url: String)
    ensures
        url@ == discovery_address(issuer@),
{
    join2(issuer, "/.well-known/openid-configuration")
}

impl DiscoveryConfig {
    /// Reads the metadata from a JSON document.
    pub fn from_json(document: &Json) -> (r: Result<DiscoveryConfig, ZitadelCLIError>)
        ensures
            outcome(r) == discovery_of(document@),
    {
        let authorization_endpoint = match document.text_field("authorization_endpoint") {
            Ok(text) => text,
            Err(e) => return Err(e),
        };
        let token_endpoint = match document.text_field("token_endpoint") {
            Ok(text) => text,
            Err(e) => return Err(e),
        };
        Ok(DiscoveryConfig { authorization_endpoint, token_endpoint })
    }
}

/// Reads the metadata from the body of the provider's answer.
pub fn parse_discovery(body: &str) -> (r: Result<DiscoveryConfig, ZitadelCLIError>)
    ensures
        outcome(r) == discovery_in(body@),
{
    match parse(body) {
        Ok(document) => DiscoveryConfig::from_json(&document),
        Err(e) => Err(e),
    }
}

/// A document that holds both endpoints as strings gives the metadata with
/// them, whatever else it holds.
pub proof fn lemma_discovery_reads_both_endpoints(
    document: JsonValue,
    authorization_endpoint: Seq<char>,
    token_endpoint: Seq<char>,
)
    requires
        document.member("authorization_endpoint"@) == Some(JsonValue::Text(authorization_endpoint)),
        document.member("token_endpoint"@) == Some(JsonValue::Text(token_endpoint)),
    ensures
        discovery_of(document) == Ok::<DiscoveryView, ErrorView>(
            DiscoveryView { authorization_endpoint, token_endpoint },
        ),
{
}

/// A document that lacks an endpoint, or holds one that is no string, gives
/// a parse error, and no other document does.
pub proof fn lemma_discovery_needs_both_endpoints(document: JsonValue)
    ensures
        document.member("authorization_endpoint"@) is None || document.member("token_endpoint"@)
            is None ==> discovery_of(document) is Err,
        discovery_of(document) is Ok <==> ({
            &&& document.member("authorization_endpoint"@) matches Some(a)
            &&& a is Text
            &&& document.member("token_endpoint"@) matches Some(t)
            &&& t is Text
        }),
        discovery_of(document) matches Err(e) ==> e is JSONParse,
{
}

} // verus!
