//! Logging in with an authorization code and a proof key: the user logs in
//! at the provider in a browser, and the provider sends the browser back to
//! a listener of the client with a code that is exchanged for a token.

pub mod callback_server;

use crate::discovery::{discovery_address, discovery_url};
use crate::flows::authorization::callback_server::{CallbackServer, CallbackServerView};
use crate::flows::{Action, ActionView};
use crate::pkce::{challenge_of, valid_code_verifier};
use crate::query::{address_with_query, with_query};
use crate::error::{outcome, ErrorView, ZitadelCLIError};
use vstd::prelude::*;
use vstd::string::StringExecFns;

verus! {

/// The configuration of the flow, with the proof key of this login.
#[derive(Debug, Clone, PartialEq, Eq)]
pub struct AuthorizationFlowAppConfig {
    pub config_file_path: String,
    pub issuer: String,
    pub client_id: String,
    pub callback_server_address: String,
    /// Whether the listener is reached over https.
    pub is_secure: bool,
    pub scopes: String,
    pub code_verifier: String,
    pub code_challenge: String,
}

/// The mathematical value of an [`AuthorizationFlowAppConfig`].
pub ghost struct AuthorizationConfigView {
    pub config_file_path: Seq<char>,
    pub issuer: Seq<char>,
    pub client_id: Seq<char>,
    pub callback_server_address: Seq<char>,
    pub is_secure: bool,
    pub scopes: Seq<char>,
    pub code_verifier: Seq<char>,
    pub code_challenge: Seq<char>,
}

impl View for AuthorizationFlowAppConfig {
    type V = AuthorizationConfigView;

    open spec fn view(&self) -> AuthorizationConfigView {
        AuthorizationConfigView {
            config_file_path: self.config_file_path@,
            issuer: self.issuer@,
            client_id: self.client_id@,
            callback_server_address: self.callback_server_address@,
            is_secure: self.is_secure,
            scopes: self.scopes@,
            code_verifier: self.code_verifier@,
            code_challenge: self.code_challenge@,
        }
    }
}

impl AuthorizationConfigView {
    /// Whether the proof key of the configuration is sound: the verifier is
    /// valid, and the challenge is the one of the verifier.
    pub open spec fn well_formed(self) -> bool {
        &&& valid_code_verifier(self.code_verifier)
        &&& self.code_challenge == challenge_of(self.code_verifier)
    }
}

/// The address to which the provider sends the browser back: the path
/// `/callback` at the listener, over https where the listener is secure and
/// over http where it is not.
pub open spec fn redirect_address(config: AuthorizationConfigView) -> Seq<char> {
    (if config.is_secure {
        "https"@
    } else {
        "http"@
    }) + "://"@ + config.callback_server_address + "/callback"@
}

/// The parameters of the request for authorization, in order.
pub open spec fn authorization_query(config: AuthorizationConfigView) -> Seq<
    (Seq<char>, Seq<char>),
> {
    seq![
        ("response_type"@, "code"@),
        ("client_id"@, config.client_id),
        ("redirect_uri"@, redirect_address(config)),
        ("scope"@, config.scopes),
        ("code_challenge"@, config.code_challenge),
        ("code_challenge_method"@, "S256"@),
    ]
}

/// The address at which the user logs in: the provider's authorization
/// endpoint with the parameters of the request.
pub open spec fn authorization_address(
    authorization_endpoint: Seq<char>,
    config: AuthorizationConfigView,
) -> Result<Seq<char>, ErrorView> {
    address_with_query(authorization_endpoint, authorization_query(config))
}

/// How a login begins: with the request for the provider's metadata.
pub open spec fn begin(config: AuthorizationConfigView, open_browser: bool) -> (
    CallbackServerView,
    ActionView,
) {
    (
        CallbackServerView::Discovering { config, open_browser },
        ActionView::Discover { url: discovery_address(config.issuer) },
    )
}

/// A parameter of a query.
fn parameter(name: &str, value: &str) -> (pair: (String, String))
    ensures
        pair.deep_view() == (name@, value@),
{
    (String::from_str(name), String::from_str(value))
}

impl AuthorizationFlowAppConfig {
    /// The address to which the provider sends the browser back.
    pub fn redirect_uri(&self) -> (uri: String)
        ensures
            uri@ == redirect_address(self@),
    {
        let mut uri = String::from_str(
            if self.is_secure {
                "https"
            } else {
                "http"
            },
        );
        uri.append("://");
        uri.append(self.callback_server_address.as_str());
        uri.append("/callback");
        uri
    }

    /// The address at which the user logs in.
    pub fn authorization_url(&self, authorization_endpoint: &str) -> (r: Result<
        String,
        ZitadelCLIError,
    >)
        ensures
            outcome(r) == authorization_address(authorization_endpoint@, self@),
    {
        let redirect_uri = self.redirect_uri();
        let mut query: Vec<(String, String)> = Vec::new();
        query.push(parameter("response_type", "code"));
        query.push(parameter("client_id", self.client_id.as_str()));
        query.push(parameter("redirect_uri", redirect_uri.as_str()));
        query.push(parameter("scope", self.scopes.as_str()));
        query.push(parameter("code_challenge", self.code_challenge.as_str()));
        query.push(parameter("code_challenge_method", "S256"));
        assert(query.deep_view() =~= authorization_query(self@));
        with_query(authorization_endpoint, &query)
    }
}

/// Begins a login with an authorization code. The browser is opened for
/// the user where `open_browser` is set.
pub fn login(config: AuthorizationFlowAppConfig, open_browser: bool) -> (r: (
    CallbackServer,
    Action,
))
    ensures
        (r.0@, r.1@) == begin(config@, open_browser),
{
    let url = discovery_url(config.issuer.as_str());
    (CallbackServer::Discovering { config, open_browser }, Action::Discover { url })
}

} // verus!
