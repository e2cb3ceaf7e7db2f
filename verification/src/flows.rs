//! The three ways to log in, as machines that say what to do next.
//!
//! A login is a state. It begins with an [`Action`] for the caller to carry
//! out; the caller reports what came of it as an [`Event`], and the login
//! answers with its next state and the next action, until it has ended.

pub mod authorization;
pub mod client_credential;
pub mod personal_access_token;

use crate::env::Environment;
use crate::error::{outcome, ErrorView, IoError, IoErrorView, ZitadelCLIError};
use crate::flows::authorization::callback_server::{CallbackServer, CallbackServerView};
use crate::flows::client_credential::{ClientCredentialLogin, ClientCredentialLoginView};
use crate::flows::personal_access_token::{PersonalAccessTokenLogin, PersonalAccessTokenLoginView};
use crate::pkce::valid_code_verifier;
use crate::token::{credential_text, Credential, CredentialView, TokenRequest, TokenRequestView};
use vstd::prelude::*;

verus! {

/// A way to log in.
#[derive(Debug, Clone, Copy, PartialEq, Eq)]
pub enum Flow {
    AuthorizationCode,
    ClientCredentials,
    PersonalAccessToken,
}

/// What the caller of a login has to do next.
#[derive(Debug, Clone, PartialEq, Eq)]
pub enum Action {
    /// Get the provider's metadata from `url`.
    Discover { url: String },
    /// Bind the callback listener to `address`.
    Listen { address: String },
    /// Show the user the address at which to log in, open it in a browser if
    /// asked to, and wait for the provider's redirect to the listener.
    Authorize { url: String, open_browser: bool },
    /// Post the request to the token endpoint.
    Exchange { request: TokenRequest },
    /// Replace what the file at `path` holds by `content`.
    Persist { path: String, content: String },
    /// Answer the browser that waits, if one does, with `reply`, and stop the
    /// listener.
    Stop { reply: String },
    /// Answer the browser that brought the event with `reply`; nothing else
    /// is to be done.
    Refuse { reply: String },
    /// Nothing: the login has ended, or the event was not one it waits for.
    Nothing,
}

/// The mathematical value of an [`Action`].
pub ghost enum ActionView {
    Discover { url: Seq<char> },
    Listen { address: Seq<char> },
    Authorize { url: Seq<char>, open_browser: bool },
    Exchange { request: TokenRequestView },
    Persist { path: Seq<char>, content: Seq<char> },
    Stop { reply: Seq<char> },
    Refuse { reply: Seq<char> },
    Nothing,
}

impl View for Action {
    type V = ActionView;

    open spec fn view(&self) -> ActionView {
        match self {
            Action::Discover { url } => ActionView::Discover { url: url@ },
            Action::Listen { address } => ActionView::Listen { address: address@ },
            Action::Authorize { url, open_browser } => ActionView::Authorize {
                url: url@,
                open_browser: *open_browser,
            },
            Action::Exchange { request } => ActionView::Exchange { request: request@ },
            Action::Persist { path, content } => ActionView::Persist {
                path: path@,
                content: content@,
            },
            Action::Stop { reply } => ActionView::Stop { reply: reply@ },
            Action::Refuse { reply } => ActionView::Refuse { reply: reply@ },
            Action::Nothing => ActionView::Nothing,
        }
    }
}

/// What came of an action.
#[derive(Debug, Clone, PartialEq, Eq)]
pub enum Event {
    /// The provider answered the request for its metadata with `body`.
    Discovered { body: String },
    /// The listener is bound.
    Bound,
    /// The listener could not be bound.
    BindFailed { failure: IoError },
    /// The provider redirected the browser to the listener, with `code`.
    Callback { code: String },
    /// The token endpoint answered.
    Answered { status: u16, body: String },
    /// The request that was to be sent did not get through.
    Unreachable { message: String },
    /// The file holds the new content.
    Persisted,
    /// The file could not be written.
    PersistFailed { failure: IoError },
    /// The listener has stopped and its port is free.
    Stopped,
}

/// The mathematical value of an [`Event`].
pub ghost enum EventView {
    Discovered { body: Seq<char> },
    Bound,
    BindFailed { failure: IoErrorView },
    Callback { code: Seq<char> },
    Answered { status: u16, body: Seq<char> },
    Unreachable { message: Seq<char> },
    Persisted,
    PersistFailed { failure: IoErrorView },
    Stopped,
}

impl View for Event {
    type V = EventView;

    open spec fn view(&self) -> EventView {
        match self {
            Event::Discovered { body } => EventView::Discovered { body: body@ },
            Event::Bound => EventView::Bound,
            Event::BindFailed { failure } => EventView::BindFailed { failure: failure@ },
            Event::Callback { code } => EventView::Callback { code: code@ },
            Event::Answered { status, body } => EventView::Answered {
                status: *status,
                body: body@,
            },
            Event::Unreachable { message } => EventView::Unreachable { message: message@ },
            Event::Persisted => EventView::Persisted,
            Event::PersistFailed { failure } => EventView::PersistFailed { failure: failure@ },
            Event::Stopped => EventView::Stopped,
        }
    }
}

/// The mathematical value of how a login ended: nothing for success, the
/// error for failure.
pub open spec fn ending(error: Option<ZitadelCLIError>) -> Option<ErrorView> {
    match error {
        Some(e) => Some(e@),
        None => None,
    }
}

/// The write that saves a credential: the new content of the file is the
/// credential as JSON.
pub open spec fn saving(path: Seq<char>, credential: CredentialView) -> ActionView {
    ActionView::Persist { path, content: credential_text(credential) }
}

/// What has to be written to save a credential in the file at `file_path`.
pub fn save_config(file_path: String, credential: &Credential) -> (write: Action)
    ensures
        write@ == saving(file_path@, credential@),
{
    Action::Persist { path: file_path, content: credential.to_text() }
}

/// A login in one of the three flows.
#[derive(Debug, Clone, PartialEq, Eq)]
pub enum Login {
    AuthorizationCode(CallbackServer),
    ClientCredentials(ClientCredentialLogin),
    PersonalAccessToken(PersonalAccessTokenLogin),
}

/// The mathematical value of a [`Login`].
pub ghost enum LoginView {
    AuthorizationCode(CallbackServerView),
    ClientCredentials(ClientCredentialLoginView),
    PersonalAccessToken(PersonalAccessTokenLoginView),
}

impl View for Login {
    type V = LoginView;

    open spec fn view(&self) -> LoginView {
        match self {
            Login::AuthorizationCode(state) => LoginView::AuthorizationCode(state@),
            Login::ClientCredentials(state) => LoginView::ClientCredentials(state@),
            Login::PersonalAccessToken(state) => LoginView::PersonalAccessToken(state@),
        }
    }
}

impl LoginView {
    /// Whether the login has ended.
    pub open spec fn finished(self) -> bool {
        match self {
            LoginView::AuthorizationCode(state) => state is Stopped || state is Failed,
            LoginView::ClientCredentials(state) => state is Finished,
            LoginView::PersonalAccessToken(state) => state is Finished,
        }
    }

    /// How the login ended, where it has: well, or with an error.
    pub open spec fn result(self) -> Option<Result<(), ErrorView>> {
        match self {
            LoginView::AuthorizationCode(CallbackServerView::Stopped { error: None }) => Some(
                Ok(()),
            ),
            LoginView::AuthorizationCode(CallbackServerView::Stopped { error: Some(e) }) => Some(
                Err(e),
            ),
            LoginView::AuthorizationCode(CallbackServerView::Failed { reason }) => Some(
                Err(reason),
            ),
            LoginView::ClientCredentials(
                ClientCredentialLoginView::Finished { error: None },
            ) => Some(Ok(())),
            LoginView::ClientCredentials(
                ClientCredentialLoginView::Finished { error: Some(e) },
            ) => Some(Err(e)),
            LoginView::PersonalAccessToken(
                PersonalAccessTokenLoginView::Finished { error: None },
            ) => Some(Ok(())),
            LoginView::PersonalAccessToken(
                PersonalAccessTokenLoginView::Finished { error: Some(e) },
            ) => Some(Err(e)),
            _ => None,
        }
    }
}

/// How a login with an authorization code begins in an environment, with
/// a code verifier: with the flow's first action where the environment
/// configures the flow, and at its end where it does not.
pub open spec fn begin_authorization_code(
    open_browser: bool,
    env: Seq<(Seq<char>, Seq<char>)>,
    code_verifier: Seq<char>,
) -> (LoginView, ActionView) {
    match authorization::callback_server::configured(env, code_verifier) {
        Ok(config) => {
            let (state, action) = authorization::begin(config, open_browser);
            (LoginView::AuthorizationCode(state), action)
        },
        Err(error) => (
            LoginView::AuthorizationCode(CallbackServerView::Failed { reason: error }),
            ActionView::Nothing,
        ),
    }
}

/// How a login with the client's credentials begins in an environment.
pub open spec fn begin_client_credentials(env: Seq<(Seq<char>, Seq<char>)>) -> (
    LoginView,
    ActionView,
) {
    match client_credential::configured(env) {
        Ok(config) => {
            let (state, action) = client_credential::begin(config);
            (LoginView::ClientCredentials(state), action)
        },
        Err(error) => (
            LoginView::ClientCredentials(
                ClientCredentialLoginView::Finished { error: Some(error) },
            ),
            ActionView::Nothing,
        ),
    }
}

/// How a login with a personal access token begins in an environment.
pub open spec fn begin_personal_access_token(env: Seq<(Seq<char>, Seq<char>)>) -> (
    LoginView,
    ActionView,
) {
    match personal_access_token::configured(env) {
        Ok(config) => {
            let (state, action) = personal_access_token::begin(config);
            (LoginView::PersonalAccessToken(state), action)
        },
        Err(error) => (
            LoginView::PersonalAccessToken(
                PersonalAccessTokenLoginView::Finished { error: Some(error) },
            ),
            ActionView::Nothing,
        ),
    }
}

/// How a login goes on when an event is reported to it: as its flow says.
pub open spec fn next(state: LoginView, event: EventView) -> (LoginView, ActionView) {
    match state {
        LoginView::AuthorizationCode(state) => {
            let (state, action) = authorization::callback_server::next(state, event);
            (LoginView::AuthorizationCode(state), action)
        },
        LoginView::ClientCredentials(state) => {
            let (state, action) = client_credential::next(state, event);
            (LoginView::ClientCredentials(state), action)
        },
        LoginView::PersonalAccessToken(state) => {
            let (state, action) = personal_access_token::next(state, event);
            (LoginView::PersonalAccessToken(state), action)
        },
    }
}

impl Flow {
    /// Begins a login in this flow, configured by the environment. Only the
    /// flow with an authorization code looks at `open_browser`.
    pub fn login(self, open_browser: bool, env: &Environment) -> (r: (Login, Action))
        ensures
            match self {
                Flow::AuthorizationCode => exists|code_verifier: Seq<char>|
                    valid_code_verifier(code_verifier) && (r.0@, r.1@)
                        == #[trigger] begin_authorization_code(open_browser, env@, code_verifier),
                Flow::ClientCredentials => (r.0@, r.1@) == begin_client_credentials(env@),
                Flow::PersonalAccessToken => (r.0@, r.1@) == begin_personal_access_token(env@),
            },
    {
        match self {
            Flow::AuthorizationCode => {
                let config = authorization::callback_server::init_config_from_env(env);
                let ghost code_verifier = choose|code_verifier: Seq<char>|
                    valid_code_verifier(code_verifier) && outcome(config)
                        == #[trigger] authorization::callback_server::configured(
                        env@,
                        code_verifier,
                    );
                let r = match config {
                    Ok(config) => {
                        let (state, action) = authorization::login(config, open_browser);
                        (Login::AuthorizationCode(state), action)
                    },
                    Err(error) => (
                        Login::AuthorizationCode(CallbackServer::Failed { reason: error }),
                        Action::Nothing,
                    ),
                };
                assert((r.0@, r.1@) == begin_authorization_code(open_browser, env@, code_verifier));
                r
            },
            Flow::ClientCredentials => match client_credential::init_config_from_env(env) {
                Ok(config) => {
                    let (state, action) = client_credential::login(config);
                    (Login::ClientCredentials(state), action)
                },
                Err(error) => (
                    Login::ClientCredentials(
                        ClientCredentialLogin::Finished { error: Some(error) },
                    ),
                    Action::Nothing,
                ),
            },
            Flow::PersonalAccessToken => match personal_access_token::init_config_from_env(env) {
                Ok(config) => {
                    let (state, action) = personal_access_token::login(config);
                    (Login::PersonalAccessToken(state), action)
                },
                Err(error) => (
                    Login::PersonalAccessToken(
                        PersonalAccessTokenLogin::Finished { error: Some(error) },
                    ),
                    Action::Nothing,
                ),
            },
        }
    }
}

impl Login {
    /// Takes the login on by one event.
    pub fn step(self, event: Event) -> (r: (Login, Action))
        ensures
            (r.0@, r.1@) == next(self@, event@),
    {
        match self {
            Login::AuthorizationCode(state) => {
                let (state, action) = state.step(event);
                (Login::AuthorizationCode(state), action)
            },
            Login::ClientCredentials(state) => {
                let (state, action) = state.step(event);
                (Login::ClientCredentials(state), action)
            },
            Login::PersonalAccessToken(state) => {
                let (state, action) = state.step(event);
                (Login::PersonalAccessToken(state), action)
            },
        }
    }

    /// Whether the login has ended.
    pub fn is_finished(&self) -> (finished: bool)
        ensures
            finished == self@.finished(),
    {
        match self {
            Login::AuthorizationCode(state) => state.is_finished(),
            Login::ClientCredentials(state) => state.is_finished(),
            Login::PersonalAccessToken(state) => state.is_finished(),
        }
    }

    /// How the login ended, once it has: well, or with an error.
    pub fn result(self) -> (r: Option<Result<(), ZitadelCLIError>>)
        ensures
            self@.result() == (match r {
                None => None::<Result<(), ErrorView>>,
                Some(Ok(())) => Some(Ok(())),
                Some(Err(e)) => Some(Err(e@)),
            }),
    {
        match self {
            Login::AuthorizationCode(state) => state.result(),
            Login::ClientCredentials(state) => state.result(),
            Login::PersonalAccessToken(state) => state.result(),
        }
    }
}

/// A login that has ended stays as it is, in every flow: it asks for
/// nothing more, and refuses a code that is brought to it.
pub proof fn lemma_finished_stays(state: LoginView, event: EventView)
    requires
        state.finished(),
    ensures
        next(state, event).0 == state,
        next(state, event).1 is Nothing || next(state, event).1 is Refuse,
        !(event is Callback) ==> next(state, event).1 is Nothing,
{
}

/// A login has a result when it has ended, and only then.
pub proof fn lemma_result_at_the_end(state: LoginView)
    ensures
        state.result() is Some <==> state.finished(),
{
}

} // verus!
