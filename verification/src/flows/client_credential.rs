//! Logging in with the client's own credentials.

use crate::discovery::{discovery_address, discovery_in, discovery_url, parse_discovery};
use crate::env::{client_id, client_secret, config_file_path, issuer, required, scopes, Environment};
use crate::error::{outcome, ErrorView, ZitadelCLIError};
use crate::flows::{ending, save_config, saving, Action, ActionView, Event, EventView};
use crate::token::{
    client_credentials_request, credentials_exchange, read_token_answer, token_answer, Credential,
    CredentialView,
};
use vstd::prelude::*;

verus! {

/// The configuration of the flow.
#[derive(Debug, Clone, PartialEq, Eq)]
pub struct ClientCredentialFlowAppConfig {
    pub config_file_path: String,
    pub client_id: String,
    pub client_secret: String,
    pub scopes: String,
    pub issuer: String,
}

/// The mathematical value of a [`ClientCredentialFlowAppConfig`].
pub ghost struct ClientCredentialConfigView {
    pub config_file_path: Seq<char>,
    pub client_id: Seq<char>,
    pub client_secret: Seq<char>,
    pub scopes: Seq<char>,
    pub issuer: Seq<char>,
}

impl View for ClientCredentialFlowAppConfig {
    type V = ClientCredentialConfigView;

    open spec fn view(&self) -> ClientCredentialConfigView {
        ClientCredentialConfigView {
            config_file_path: self.config_file_path@,
            client_id: self.client_id@,
            client_secret: self.client_secret@,
            scopes: self.scopes@,
            issuer: self.issuer@,
        }
    }
}

/// The configuration that an environment gives: the five variables have to
/// be set, and the first that is not is the error.
pub open spec fn configured(env: Seq<(Seq<char>, Seq<char>)>) -> Result<
    ClientCredentialConfigView,
    ErrorView,
> {
    match required(env, "CONFIG_FILE_PATH"@) {
        Err(e) => Err(e),
        Ok(config_file_path) => match required(env, "ISSUER"@) {
            Err(e) => Err(e),
            Ok(issuer) => match required(env, "CLIENT_ID"@) {
                Err(e) => Err(e),
                Ok(client_id) => match required(env, "CLIENT_SECRET"@) {
                    Err(e) => Err(e),
                    Ok(client_secret) => match required(env, "SCOPES"@) {
                        Err(e) => Err(e),
                        Ok(scopes) => Ok(
                            ClientCredentialConfigView {
                                config_file_path,
                                client_id,
                                client_secret,
                                scopes,
                                issuer,
                            },
                        ),
                    },
                },
            },
        },
    }
}

/// Takes the configuration of the flow from the environment.
pub fn init_config_from_env(env: &Environment) -> (r: Result<
    ClientCredentialFlowAppConfig,
    ZitadelCLIError,
>)
    ensures
        outcome(r) == configured(env@),
{
    let config_file_path = match config_file_path(env) {
        Ok(value) => value,
        Err(e) => return Err(e),
    };
    let issuer = match issuer(env) {
        Ok(value) => value,
        Err(e) => return Err(e),
    };
    let client_id = match client_id(env) {
        Ok(value) => value,
        Err(e) => return Err(e),
    };
    let client_secret = match client_secret(env) {
        Ok(value) => value,
        Err(e) => return Err(e),
    };
    let scopes = match scopes(env) {
        Ok(value) => value,
        Err(e) => return Err(e),
    };
    Ok(ClientCredentialFlowAppConfig { config_file_path, client_id, client_secret, scopes, issuer })
}

/// A login with the client's credentials.
#[derive(Debug, Clone, PartialEq, Eq)]
pub enum ClientCredentialLogin {
    /// The provider's metadata is being fetched.
    Discovering { config: ClientCredentialFlowAppConfig },
    /// The credentials are being exchanged for a token.
    Exchanging { config_file_path: String },
    /// The token is being written to the credential file.
    Persisting,
    /// The login has ended, with the error if it failed.
    Finished { error: Option<ZitadelCLIError> },
}

/// The mathematical value of a [`ClientCredentialLogin`].
pub ghost enum ClientCredentialLoginView {
    Discovering { config: ClientCredentialConfigView },
    Exchanging { config_file_path: Seq<char> },
    Persisting,
    Finished { error: Option<ErrorView> },
}

impl View for ClientCredentialLogin {
    type V = ClientCredentialLoginView;

    open spec fn view(&self) -> ClientCredentialLoginView {
        match self {
            ClientCredentialLogin::Discovering {
                config,
            } => ClientCredentialLoginView::Discovering { config: config@ },
            ClientCredentialLogin::Exchanging {
                config_file_path,
            } => ClientCredentialLoginView::Exchanging { config_file_path: config_file_path@ },
            ClientCredentialLogin::Persisting => ClientCredentialLoginView::Persisting,
            ClientCredentialLogin::Finished { error } => ClientCredentialLoginView::Finished {
                error: ending(*error),
            },
        }
    }
}

/// The state of a login that has failed.
pub open spec fn failed(error: ErrorView) -> (ClientCredentialLoginView, ActionView) {
    (ClientCredentialLoginView::Finished { error: Some(error) }, ActionView::Nothing)
}

/// How a login begins: with the request for the provider's metadata.
pub open spec fn begin(config: ClientCredentialConfigView) -> (
    ClientCredentialLoginView,
    ActionView,
) {
    (
        ClientCredentialLoginView::Discovering { config },
        ActionView::Discover { url: discovery_address(config.issuer) },
    )
}

/// How a login goes on when an event is reported to it.
pub open spec fn next(state: ClientCredentialLoginView, event: EventView) -> (
    ClientCredentialLoginView,
    ActionView,
) {
    match (state, event) {
        (
            ClientCredentialLoginView::Discovering { config },
            EventView::Discovered { body },
        ) => match discovery_in(body) {
            Err(e) => failed(e),
            Ok(discovery) => (
                ClientCredentialLoginView::Exchanging { config_file_path: config.config_file_path },
                ActionView::Exchange {
                    request: credentials_exchange(
                        discovery.token_endpoint,
                        config.client_id,
                        config.client_secret,
                        config.scopes,
                    ),
                },
            ),
        },
        (
            ClientCredentialLoginView::Discovering { .. },
            EventView::Unreachable { message },
        ) => failed(ErrorView::Reqwest(message)),
        (
            ClientCredentialLoginView::Exchanging { config_file_path },
            EventView::Answered { status, body },
        ) => match token_answer(status, body) {
            Err(e) => failed(e),
            Ok(token) => (
                ClientCredentialLoginView::Persisting,
                saving(config_file_path, CredentialView::Token(token)),
            ),
        },
        (
            ClientCredentialLoginView::Exchanging { .. },
            EventView::Unreachable { message },
        ) => failed(ErrorView::Reqwest(message)),
        (ClientCredentialLoginView::Persisting, EventView::Persisted) => (
            ClientCredentialLoginView::Finished { error: None },
            ActionView::Nothing,
        ),
        (ClientCredentialLoginView::Persisting, EventView::PersistFailed { failure }) => failed(
            ErrorView::IO(failure),
        ),
        _ => (state, ActionView::Nothing),
    }
}

/// The login that has failed with `error`.
fn fail(error: ZitadelCLIError) -> (r: (ClientCredentialLogin, Action))
    ensures
        (r.0@, r.1@) == failed(error@),
{
    (ClientCredentialLogin::Finished { error: Some(error) }, Action::Nothing)
}

/// Begins a login with the client's credentials.
pub fn login(config: ClientCredentialFlowAppConfig) -> (r: (ClientCredentialLogin, Action))
    ensures
        (r.0@, r.1@) == begin(config@),
{
    let url = discovery_url(config.issuer.as_str());
    (ClientCredentialLogin::Discovering { config }, Action::Discover { url })
}

impl ClientCredentialLogin {
    /// Takes the login on by one event.
    pub fn step(self, event: Event) -> (r: (ClientCredentialLogin, Action))
        ensures
            (r.0@, r.1@) == next(self@, event@),
    {
        match (self, event) {
            (
                ClientCredentialLogin::Discovering { config },
                Event::Discovered { body },
            ) => match parse_discovery(body.as_str()) {
                Err(e) => fail(e),
                Ok(discovery) => {
                    let request = client_credentials_request(
                        discovery.token_endpoint.as_str(),
                        config.client_id.as_str(),
                        config.client_secret.as_str(),
                        config.scopes.as_str(),
                    );
                    (
                        ClientCredentialLogin::Exchanging {
                            config_file_path: config.config_file_path,
                        },
                        Action::Exchange { request },
                    )
                },
            },
            (ClientCredentialLogin::Discovering { .. }, Event::Unreachable { message }) => fail(
                ZitadelCLIError::Reqwest(message),
            ),
            (
                ClientCredentialLogin::Exchanging { config_file_path },
                Event::Answered { status, body },
            ) => match read_token_answer(status, body) {
                Err(e) => fail(e),
                Ok(token) => (
                    ClientCredentialLogin::Persisting,
                    save_config(config_file_path, &Credential::Token(token)),
                ),
            },
            (ClientCredentialLogin::Exchanging { .. }, Event::Unreachable { message }) => fail(
                ZitadelCLIError::Reqwest(message),
            ),
            (ClientCredentialLogin::Persisting, Event::Persisted) => (
                ClientCredentialLogin::Finished { error: None },
                Action::Nothing,
            ),
            (ClientCredentialLogin::Persisting, Event::PersistFailed { failure }) => fail(
                ZitadelCLIError::IO(failure),
            ),
            (state, _) => (state, Action::Nothing),
        }
    }

    /// Whether the login has ended.
    pub fn is_finished(&self) -> (finished: bool)
        ensures
            finished == (self@ is Finished),
    {
        match self {
            ClientCredentialLogin::Finished { .. } => true,
            _ => false,
        }
    }

    /// How the login ended, once it has: well, or with an error.
    pub fn result(self) -> (r: Option<Result<(), ZitadelCLIError>>)
        ensures
            match r {
                None => !(self@ is Finished),
                Some(Ok(())) => self@ == (ClientCredentialLoginView::Finished { error: None }),
                Some(Err(e)) => self@ == (ClientCredentialLoginView::Finished { error: Some(e@) }),
            },
    {
        match self {
            ClientCredentialLogin::Finished { error: None } => Some(Ok(())),
            ClientCredentialLogin::Finished { error: Some(e) } => Some(Err(e)),
            _ => None,
        }
    }
}

/// With the provider's metadata and a token from the token endpoint the
/// login ends well: the credentials are posted to the token endpoint of the
/// metadata, with Basic authentication, and the token is written to the
/// credential file as JSON.
pub proof fn lemma_login_ends_well(
    config: ClientCredentialConfigView,
    metadata: Seq<char>,
    body: Seq<char>,
)
    requires
        discovery_in(metadata) is Ok,
        token_answer(200, body) is Ok,
    ensures
        ({
            let (discovering, first) = begin(config);
            let (exchanging, second) = next(discovering, EventView::Discovered { body: metadata });
            let (persisting, third) = next(exchanging, EventView::Answered { status: 200, body });
            let (finished, last) = next(persisting, EventView::Persisted);
            &&& first == ActionView::Discover { url: discovery_address(config.issuer) }
            &&& second matches ActionView::Exchange { request }
            &&& request.url == discovery_in(metadata)->Ok_0.token_endpoint
            &&& request.basic_auth == Some((config.client_id, config.client_secret))
            &&& third == saving(
                config.config_file_path,
                CredentialView::Token(token_answer(200, body)->Ok_0),
            )
            &&& finished == ClientCredentialLoginView::Finished { error: None }
            &&& last == ActionView::Nothing
        }),
{
}

/// The credential file is written only when the token endpoint has answered
/// 200 with a token, and then with that token as JSON.
pub proof fn lemma_writes_only_a_granted_token(state: ClientCredentialLoginView, event: EventView)
    ensures
        next(state, event).1 is Persist ==> {
            &&& state matches ClientCredentialLoginView::Exchanging { config_file_path }
            &&& event matches EventView::Answered { status, body }
            &&& status == 200
            &&& token_answer(status, body) matches Ok(token)
            &&& next(state, event).1 == saving(config_file_path, CredentialView::Token(token))
        },
{
}

/// A login that has ended stays as it is and asks for nothing more.
pub proof fn lemma_finished_stays(state: ClientCredentialLoginView, event: EventView)
    requires
        state is Finished,
    ensures
        next(state, event) == (state, ActionView::Nothing),
{
}

} // verus!
