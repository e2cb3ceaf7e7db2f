//! The listener that takes the provider's redirect, exchanges the code for
//! a token, has the token saved and then stops, whatever came of it.

use crate::discovery::{discovery_in, parse_discovery, DiscoveryConfig, DiscoveryView};
use crate::env::{
    callback_server_address, client_id, config_file_path, is_secure, issuer, lookup, required,
    scopes, Environment,
};
use crate::error::{error_message, outcome, ErrorView, ZitadelCLIError};
use crate::flows::authorization::{
    authorization_address, authorization_query, begin, redirect_address,
    AuthorizationConfigView, AuthorizationFlowAppConfig,
};
use crate::flows::{ending, save_config, saving, Action, ActionView, Event, EventView};
use crate::pkce::{
    challenge_of, generate_code_challenge, generate_code_verifier, valid_code_verifier,
};
use crate::text::join2;
use crate::token::{
    code_exchange, exchange_code_request, read_token_answer, token_answer, Credential,
    CredentialView,
};
use vstd::prelude::*;
use vstd::string::StringExecFns;

verus! {

/// The configuration that an environment gives with a code verifier: the
/// five variables have to be set, and the first that is not is the error. The
/// challenge is the one of the verifier.
pub open spec fn configured(env: Seq<(Seq<char>, Seq<char>)>, code_verifier: Seq<char>) -> Result<
    AuthorizationConfigView,
    ErrorView,
> {
    match required(env, "CONFIG_FILE_PATH"@) {
        Err(e) => Err(e),
        Ok(config_file_path) => match required(env, "ISSUER"@) {
            Err(e) => Err(e),
            Ok(issuer) => match required(env, "CLIENT_ID"@) {
                Err(e) => Err(e),
                Ok(client_id) => match required(env, "CALLBACK_SERVER_ADDRESS"@) {
                    Err(e) => Err(e),
                    Ok(callback_server_address) => match required(env, "SCOPES"@) {
                        Err(e) => Err(e),
                        Ok(scopes) => Ok(
                            AuthorizationConfigView {
                                config_file_path,
                                issuer,
                                client_id,
                                callback_server_address,
                                is_secure: lookup(env, "IS_SECURE"@) == Some("true"@),
                                scopes,
                                code_verifier,
                                code_challenge: challenge_of(code_verifier),
                            },
                        ),
                    },
                },
            },
        },
    }
}

/// Takes the configuration of the flow from the environment, with the given
/// code verifier and its challenge.
pub fn config_with_verifier(env: &Environment, code_verifier: String) -> (r: Result<
    AuthorizationFlowAppConfig,
    ZitadelCLIError,
>)
    ensures
        outcome(r) == configured(env@, code_verifier@),
{
    let config_file_path = match config_file_path(env) {
        Ok(value) => value,
        Err(e) => return Err(e),
    };
    let issuer = match issuer(env) {
        Ok(value) => value,
        Err(e) => return Err(e),
    };
    let client_id = match client_id(env) {
        Ok(value) => value,
        Err(e) => return Err(e),
    };
    let callback_server_address = match callback_server_address(env) {
        Ok(value) => value,
        Err(e) => return Err(e),
    };
    let scopes = match scopes(env) {
        Ok(value) => value,
        Err(e) => return Err(e),
    };
    let is_secure = is_secure(env);
    let code_challenge = generate_code_challenge(code_verifier.as_str());
    Ok(
        AuthorizationFlowAppConfig {
            config_file_path,
            issuer,
            client_id,
            callback_server_address,
            is_secure,
            scopes,
            code_verifier,
            code_challenge,
        },
    )
}

/// Takes the configuration of the flow from the environment, with a fresh
/// code verifier and its challenge.
pub fn init_config_from_env(env: &Environment) -> (r: Result<
    AuthorizationFlowAppConfig,
    ZitadelCLIError,
>)
    ensures
        exists|code_verifier: Seq<char>|
            valid_code_verifier(code_verifier) && outcome(r) == #[trigger] configured(
                env@,
                code_verifier,
            ),
        r matches Ok(config) ==> config@.well_formed(),
{
    let code_verifier = generate_code_verifier();
    config_with_verifier(env, code_verifier)
}

/// A login with an authorization code, around its listener.
#[derive(Debug, Clone, PartialEq, Eq)]
pub enum CallbackServer {
    /// The provider's metadata is being fetched.
    Discovering { config: AuthorizationFlowAppConfig, open_browser: bool },
    /// The listener is being bound.
    Idle { config: AuthorizationFlowAppConfig, discovery: DiscoveryConfig, open_browser: bool },
    /// The listener waits for the provider's redirect.
    Listening { config: AuthorizationFlowAppConfig, discovery: DiscoveryConfig },
    /// The code is being exchanged for a token.
    Exchanging { config_file_path: String },
    /// The token is being written to the credential file.
    Persisting,
    /// The listener is being stopped; the login has come to `error`, or to
    /// a good end.
    Stopping { error: Option<ZitadelCLIError> },
    /// The listener has stopped and the login has ended.
    Stopped { error: Option<ZitadelCLIError> },
    /// The login has ended before the listener was bound.
    Failed { reason: ZitadelCLIError },
}

/// The mathematical value of a [`CallbackServer`].
pub ghost enum CallbackServerView {
    Discovering { config: AuthorizationConfigView, open_browser: bool },
    Idle { config: AuthorizationConfigView, discovery: DiscoveryView, open_browser: bool },
    Listening { config: AuthorizationConfigView, discovery: DiscoveryView },
    Exchanging { config_file_path: Seq<char> },
    Persisting,
    Stopping { error: Option<ErrorView> },
    Stopped { error: Option<ErrorView> },
    Failed { reason: ErrorView },
}

impl View for CallbackServer {
    type V = CallbackServerView;

    open spec fn view(&self) -> CallbackServerView {
        match self {
            CallbackServer::Discovering {
                config,
                open_browser,
            } => CallbackServerView::Discovering { config: config@, open_browser: *open_browser },
            CallbackServer::Idle { config, discovery, open_browser } => CallbackServerView::Idle {
                config: config@,
                discovery: discovery@,
                open_browser: *open_browser,
            },
            CallbackServer::Listening { config, discovery } => CallbackServerView::Listening {
                config: config@,
                discovery: discovery@,
            },
            CallbackServer::Exchanging { config_file_path } => CallbackServerView::Exchanging {
                config_file_path: config_file_path@,
            },
            CallbackServer::Persisting => CallbackServerView::Persisting,
            CallbackServer::Stopping { error } => CallbackServerView::Stopping {
                error: ending(*error),
            },
            CallbackServer::Stopped { error } => CallbackServerView::Stopped {
                error: ending(*error),
            },
            CallbackServer::Failed { reason } => CallbackServerView::Failed { reason: reason@ },
        }
    }
}

impl CallbackServerView {
    /// Whether the state is one that a login comes to: the proof key of
    /// its configuration is sound.
    pub open spec fn well_formed(self) -> bool {
        match self {
            CallbackServerView::Discovering { config, .. } => config.well_formed(),
            CallbackServerView::Idle { config, .. } => config.well_formed(),
            CallbackServerView::Listening { config, .. } => config.well_formed(),
            _ => true,
        }
    }

    /// Whether the listener is bound in the state.
    pub open spec fn bound(self) -> bool {
        self is Listening || self is Exchanging || self is Persisting || self is Stopping
    }
}

/// What the browser is told after a login that went well.
pub open spec fn success_reply() -> Seq<char> {
    "Code received and access_token retrieved, you can close this page."@
}

/// What a browser is told that brings a code for which the login does not
/// wait: a second one, or one that comes too late.
pub open spec fn refusal() -> Seq<char> {
    "The login does not wait for a code."@
}

/// What the browser is told after a login that failed.
pub open spec fn failure_reply(error: ErrorView) -> Seq<char> {
    "An error occurred: "@ + error_message(error)
}

/// The state of a login that has failed before the listener was bound.
pub open spec fn failed(error: ErrorView) -> (CallbackServerView, ActionView) {
    (CallbackServerView::Failed { reason: error }, ActionView::Nothing)
}

/// The state of a login that has failed while the listener was bound: the
/// browser is told, if one waits, and the listener stops.
pub open spec fn stopping(error: ErrorView) -> (CallbackServerView, ActionView) {
    (
        CallbackServerView::Stopping { error: Some(error) },
        ActionView::Stop { reply: failure_reply(error) },
    )
}

/// How a login goes on when an event is reported to it.
pub open spec fn next(state: CallbackServerView, event: EventView) -> (
    CallbackServerView,
    ActionView,
) {
    match (state, event) {
        (
            CallbackServerView::Discovering { config, open_browser },
            EventView::Discovered { body },
        ) => match discovery_in(body) {
            Err(e) => failed(e),
            Ok(discovery) => (
                CallbackServerView::Idle { config, discovery, open_browser },
                ActionView::Listen { address: config.callback_server_address },
            ),
        },
        (CallbackServerView::Discovering { .. }, EventView::Unreachable { message }) => failed(
            ErrorView::Reqwest(message),
        ),
        (
            CallbackServerView::Idle { config, discovery, open_browser },
            EventView::Bound,
        ) => match authorization_address(discovery.authorization_endpoint, config) {
            Err(e) => stopping(e),
            Ok(url) => (
                CallbackServerView::Listening { config, discovery },
                ActionView::Authorize { url, open_browser },
            ),
        },
        (CallbackServerView::Idle { .. }, EventView::BindFailed { failure }) => failed(
            ErrorView::IO(failure),
        ),
        (CallbackServerView::Listening { config, discovery }, EventView::Callback { code }) => (
            CallbackServerView::Exchanging { config_file_path: config.config_file_path },
            ActionView::Exchange {
                request: code_exchange(
                    discovery.token_endpoint,
                    config.client_id,
                    code,
                    redirect_address(config),
                    config.code_verifier,
                ),
            },
        ),
        (
            CallbackServerView::Exchanging { config_file_path },
            EventView::Answered { status, body },
        ) => match token_answer(status, body) {
            Err(e) => stopping(e),
            Ok(token) => (
                CallbackServerView::Persisting,
                saving(config_file_path, CredentialView::Token(token)),
            ),
        },
        (CallbackServerView::Exchanging { .. }, EventView::Unreachable { message }) => stopping(
            ErrorView::Reqwest(message),
        ),
        (CallbackServerView::Persisting, EventView::Persisted) => (
            CallbackServerView::Stopping { error: None },
            ActionView::Stop { reply: success_reply() },
        ),
        (CallbackServerView::Persisting, EventView::PersistFailed { failure }) => stopping(
            ErrorView::IO(failure),
        ),
        (CallbackServerView::Stopping { error }, EventView::Stopped) => (
            CallbackServerView::Stopped { error },
            ActionView::Nothing,
        ),
        (_, EventView::Callback { .. }) => (state, ActionView::Refuse { reply: refusal() }),
        _ => (state, ActionView::Nothing),
    }
}

/// The login that has failed with `error` before the listener was bound.
fn fail(error: ZitadelCLIError) -> (r: (CallbackServer, Action))
    ensures
        (r.0@, r.1@) == failed(error@),
{
    (CallbackServer::Failed { reason: error }, Action::Nothing)
}

/// The login that has failed with `error` while the listener was bound.
fn stop(error: ZitadelCLIError) -> (r: (CallbackServer, Action))
    ensures
        (r.0@, r.1@) == stopping(error@),
{
    let reply = join2("An error occurred: ", error.message().as_str());
    (CallbackServer::Stopping { error: Some(error) }, Action::Stop { reply })
}

impl CallbackServer {
    /// Takes the login on by one event.
    pub fn step(self, event: Event) -> (r: (CallbackServer, Action))
        ensures
            (r.0@, r.1@) == next(self@, event@),
    {
        match (self, event) {
            (
                CallbackServer::Discovering { config, open_browser },
                Event::Discovered { body },
            ) => match parse_discovery(body.as_str()) {
                Err(e) => fail(e),
                Ok(discovery) => {
                    let address = config.callback_server_address.clone();
                    (
                        CallbackServer::Idle { config, discovery, open_browser },
                        Action::Listen { address },
                    )
                },
            },
            (CallbackServer::Discovering { .. }, Event::Unreachable { message }) => fail(
                ZitadelCLIError::Reqwest(message),
            ),
            (
                CallbackServer::Idle { config, discovery, open_browser },
                Event::Bound,
            ) => match config.authorization_url(discovery.authorization_endpoint.as_str()) {
                Err(e) => stop(e),
                Ok(url) => (
                    CallbackServer::Listening { config, discovery },
                    Action::Authorize { url, open_browser },
                ),
            },
            (CallbackServer::Idle { .. }, Event::BindFailed { failure }) => fail(
                ZitadelCLIError::IO(failure),
            ),
            (CallbackServer::Listening { config, discovery }, Event::Callback { code }) => {
                let request = exchange_code_request(
                    discovery.token_endpoint.as_str(),
                    config.client_id.as_str(),
                    code.as_str(),
                    config.redirect_uri().as_str(),
                    config.code_verifier.as_str(),
                );
                (
                    CallbackServer::Exchanging { config_file_path: config.config_file_path },
                    Action::Exchange { request },
                )
            },
            (
                CallbackServer::Exchanging { config_file_path },
                Event::Answered { status, body },
            ) => match read_token_answer(status, body) {
                Err(e) => stop(e),
                Ok(token) => (
                    CallbackServer::Persisting,
                    save_config(config_file_path, &Credential::Token(token)),
                ),
            },
            (CallbackServer::Exchanging { .. }, Event::Unreachable { message }) => stop(
                ZitadelCLIError::Reqwest(message),
            ),
            (CallbackServer::Persisting, Event::Persisted) => (
                CallbackServer::Stopping { error: None },
                Action::Stop {
                    reply: String::from_str(
                        "Code received and access_token retrieved, you can close this page.",
                    ),
                },
            ),
            (CallbackServer::Persisting, Event::PersistFailed { failure }) => stop(
                ZitadelCLIError::IO(failure),
            ),
            (CallbackServer::Stopping { error }, Event::Stopped) => (
                CallbackServer::Stopped { error },
                Action::Nothing,
            ),
            (state, Event::Callback { .. }) => (
                state,
                Action::Refuse { reply: String::from_str("The login does not wait for a code.") },
            ),
            (state, _) => (state, Action::Nothing),
        }
    }

    /// Whether the login has ended.
    pub fn is_finished(&self) -> (finished: bool)
        ensures
            finished == (self@ is Stopped || self@ is Failed),
    {
        match self {
            CallbackServer::Stopped { .. } => true,
            CallbackServer::Failed { .. } => true,
            _ => false,
        }
    }

    /// How the login ended, once it has: well, or with an error.
    pub fn result(self) -> (r: Option<Result<(), ZitadelCLIError>>)
        ensures
            match r {
                None => !(self@ is Stopped || self@ is Failed),
                Some(Ok(())) => self@ == (CallbackServerView::Stopped { error: None }),
                Some(Err(e)) => self@ == (CallbackServerView::Stopped { error: Some(e@) })
                    || self@ == (CallbackServerView::Failed { reason: e@ }),
            },
    {
        match self {
            CallbackServer::Stopped { error: None } => Some(Ok(())),
            CallbackServer::Stopped { error: Some(e) } => Some(Err(e)),
            CallbackServer::Failed { reason } => Some(Err(reason)),
            _ => None,
        }
    }
}

/// A configuration that is taken from an environment with a valid verifier
/// has a sound proof key.
pub proof fn lemma_configured_is_well_formed(
    env: Seq<(Seq<char>, Seq<char>)>,
    code_verifier: Seq<char>,
)
    requires
        valid_code_verifier(code_verifier),
    ensures
        configured(env, code_verifier) matches Ok(config) ==> config.well_formed()
            && config.code_verifier == code_verifier,
{
}

/// A login begins in a state that a login comes to, and every event takes
/// it to such a state again.
pub proof fn lemma_login_stays_well_formed(
    config: AuthorizationConfigView,
    open_browser: bool,
    state: CallbackServerView,
    event: EventView,
)
    ensures
        config.well_formed() ==> begin(config, open_browser).0.well_formed(),
        state.well_formed() ==> next(state, event).0.well_formed(),
{
}

/// The listener is bound whatever the metadata names as authorization
/// endpoint: metadata that reads asks for the listener, and only when the
/// listener is bound is the address for the user made. Where it can be made
/// the user is sent to it, and where it cannot, the listener that was bound
/// is stopped.
pub proof fn lemma_listener_is_bound_first(
    config: AuthorizationConfigView,
    open_browser: bool,
    body: Seq<char>,
)
    requires
        discovery_in(body) is Ok,
    ensures
        ({
            let discovery = discovery_in(body)->Ok_0;
            let idle = CallbackServerView::Idle { config, discovery, open_browser };
            let address = authorization_address(discovery.authorization_endpoint, config);
            &&& next(
                CallbackServerView::Discovering { config, open_browser },
                EventView::Discovered { body },
            ) == (idle, ActionView::Listen { address: config.callback_server_address })
            &&& address matches Ok(url) ==> next(idle, EventView::Bound) == (
                CallbackServerView::Listening { config, discovery },
                ActionView::Authorize { url, open_browser },
            )
            &&& address matches Err(e) ==> next(idle, EventView::Bound) == stopping(e)
        }),
{
}

/// The exchange proves the challenge: the user is sent to the provider with
/// the challenge of the configuration, and the code that comes back is
/// exchanged with its verifier, of which that challenge is the digest.
pub proof fn lemma_exchange_proves_the_challenge(
    config: AuthorizationConfigView,
    discovery: DiscoveryView,
    code: Seq<char>,
)
    requires
        config.well_formed(),
    ensures
        authorization_query(config)[4] == ("code_challenge"@, challenge_of(config.code_verifier)),
        authorization_query(config)[5] == ("code_challenge_method"@, "S256"@),
        next(
            CallbackServerView::Listening { config, discovery },
            EventView::Callback { code },
        ).1 matches ActionView::Exchange { request } && request.form[2] == ("code"@, code)
            && request.form[4] == ("code_verifier"@, config.code_verifier),
{
}

/// One redirect with a code, answered by the token endpoint with a token,
/// takes a listening login to its good end: the code is exchanged with the
/// verifier of this login, the token is written to the credential file as
/// JSON, the browser is answered and the listener stops.
pub proof fn lemma_one_callback_ends_well(
    config: AuthorizationConfigView,
    discovery: DiscoveryView,
    code: Seq<char>,
    body: Seq<char>,
)
    requires
        token_answer(200, body) is Ok,
    ensures
        ({
            let listening = CallbackServerView::Listening { config, discovery };
            let (exchanging, first) = next(listening, EventView::Callback { code });
            let (persisting, second) = next(
                exchanging,
                EventView::Answered { status: 200, body },
            );
            let (stopping, third) = next(persisting, EventView::Persisted);
            let (stopped, last) = next(stopping, EventView::Stopped);
            &&& first == ActionView::Exchange {
                request: code_exchange(
                    discovery.token_endpoint,
                    config.client_id,
                    code,
                    redirect_address(config),
                    config.code_verifier,
                ),
            }
            &&& second == saving(
                config.config_file_path,
                CredentialView::Token(token_answer(200, body)->Ok_0),
            )
            &&& third == ActionView::Stop { reply: success_reply() }
            &&& stopped == CallbackServerView::Stopped { error: None }
            &&& last == ActionView::Nothing
        }),
{
}

/// The credential file is written only when the token endpoint has answered
/// 200 with a token, and then with that token as JSON.
pub proof fn lemma_writes_only_a_granted_token(state: CallbackServerView, event: EventView)
    ensures
        next(state, event).1 is Persist ==> {
            &&& state matches CallbackServerView::Exchanging { config_file_path }
            &&& event matches EventView::Answered { status, body }
            &&& status == 200
            &&& token_answer(status, body) matches Ok(token)
            &&& next(state, event).1 == saving(config_file_path, CredentialView::Token(token))
        },
{
}

/// An answer of the token endpoint with another status than 200 stops the
/// listener with the error of that status, and nothing is written.
pub proof fn lemma_refusal_stops_without_writing(
    config_file_path: Seq<char>,
    status: u16,
    body: Seq<char>,
)
    requires
        status != 200,
    ensures
        next(
            CallbackServerView::Exchanging { config_file_path },
            EventView::Answered { status, body },
        ) == stopping(
            if status == 401 {
                ErrorView::Unauthorized(body)
            } else {
                ErrorView::UnexpectedStatus { status, body }
            },
        ),
{
}

/// Whether an event is one that a login waits for in a state.
pub open spec fn awaited(state: CallbackServerView, event: EventView) -> bool {
    match state {
        CallbackServerView::Discovering { .. } => event is Discovered || event is Unreachable,
        CallbackServerView::Idle { .. } => event is Bound || event is BindFailed,
        CallbackServerView::Listening { .. } => event is Callback,
        CallbackServerView::Exchanging { .. } => event is Answered || event is Unreachable,
        CallbackServerView::Persisting => event is Persisted || event is PersistFailed,
        CallbackServerView::Stopping { .. } => event is Stopped,
        CallbackServerView::Stopped { .. } => false,
        CallbackServerView::Failed { .. } => false,
    }
}

/// How many awaited events a login is from its end at most.
pub open spec fn distance(state: CallbackServerView) -> nat {
    match state {
        CallbackServerView::Discovering { .. } => 6,
        CallbackServerView::Idle { .. } => 5,
        CallbackServerView::Listening { .. } => 4,
        CallbackServerView::Exchanging { .. } => 3,
        CallbackServerView::Persisting => 2,
        CallbackServerView::Stopping { .. } => 1,
        CallbackServerView::Stopped { .. } => 0,
        CallbackServerView::Failed { .. } => 0,
    }
}

/// An event that a login waits for takes it nearer to its end, and any other
/// event leaves it as it is: a code that it does not wait for is refused,
/// and for an event of another kind nothing is asked. A login that has ended
/// stays ended.
pub proof fn lemma_events_lead_to_the_end(state: CallbackServerView, event: EventView)
    ensures
        awaited(state, event) ==> distance(next(state, event).0) < distance(state),
        !awaited(state, event) ==> next(state, event) == (
            state,
            if event is Callback {
                ActionView::Refuse { reply: refusal() }
            } else {
                ActionView::Nothing
            },
        ),
{
}

/// The listener is bound when the bind has succeeded, and once it is bound
/// the login ends only by stopping it: whatever comes of the address, of the
/// exchange and of the write, the listener is told to stop, and the login
/// ends when it has.
pub proof fn lemma_a_bound_listener_is_stopped(state: CallbackServerView, event: EventView)
    ensures
        state is Idle && event is Bound ==> next(state, event).0.bound(),
        next(state, event).0.bound() && !state.bound() ==> state is Idle && event is Bound,
        state.bound() ==> next(state, event).0.bound() || next(state, event).0 is Stopped,
        next(state, event).0 is Stopped && !(state is Stopped) ==> state is Stopping
            && event is Stopped,
        next(state, event).0 is Stopping && !(state is Stopping) ==> next(state, event).1 is Stop,
        next(state, event).1 is Stop ==> next(state, event).0 is Stopping && !(state is Stopping),
{
}

} // verus!
