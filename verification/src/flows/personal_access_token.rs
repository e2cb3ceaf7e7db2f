//! Logging in with a personal access token: the token is saved as it is
//! configured, and the provider is not asked.

use crate::env::{config_file_path, personal_access_token, required, Environment};
use crate::error::{outcome, ErrorView, ZitadelCLIError};
use crate::flows::{ending, save_config, saving, Action, ActionView, Event, EventView};
use crate::json::json_string_literal;
use crate::token::{Credential, CredentialView};
use vstd::prelude::*;

verus! {

/// The configuration of the flow.
#[derive(Debug, Clone, PartialEq, Eq)]
pub struct PersonalAccessTokenFlowAppConfig {
    pub config_file_path: String,
    pub personal_access_token: String,
}

/// The mathematical value of a [`PersonalAccessTokenFlowAppConfig`].
pub ghost struct PersonalAccessTokenConfigView {
    pub config_file_path: Seq<char>,
    pub personal_access_token: Seq<char>,
}

impl View for PersonalAccessTokenFlowAppConfig {
    type V = PersonalAccessTokenConfigView;

    open spec fn view(&self) -> PersonalAccessTokenConfigView {
        PersonalAccessTokenConfigView {
            config_file_path: self.config_file_path@,
            personal_access_token: self.personal_access_token@,
        }
    }
}

/// The configuration that an environment gives: both variables have to be
/// set, and the first that is not is the error.
pub open spec fn configured(env: Seq<(Seq<char>, Seq<char>)>) -> Result<
    PersonalAccessTokenConfigView,
    ErrorView,
> {
    match required(env, "CONFIG_FILE_PATH"@) {
        Err(e) => Err(e),
        Ok(config_file_path) => match required(env, "PERSONAL_ACCESS_TOKEN"@) {
            Err(e) => Err(e),
            Ok(personal_access_token) => Ok(
                PersonalAccessTokenConfigView { config_file_path, personal_access_token },
            ),
        },
    }
}

/// Takes the configuration of the flow from the environment.
pub fn init_config_from_env(env: &Environment) -> (r: Result<
    PersonalAccessTokenFlowAppConfig,
    ZitadelCLIError,
>)
    ensures
        outcome(r) == configured(env@),
{
    let config_file_path = match config_file_path(env) {
        Ok(value) => value,
        Err(e) => return Err(e),
    };
    let personal_access_token = match personal_access_token(env) {
        Ok(value) => value,
        Err(e) => return Err(e),
    };
    Ok(PersonalAccessTokenFlowAppConfig { config_file_path, personal_access_token })
}

/// A login with a personal access token.
#[derive(Debug, Clone, PartialEq, Eq)]
pub enum PersonalAccessTokenLogin {
    /// The token is being written to the credential file.
    Persisting,
    /// The login has ended, with the error if it failed.
    Finished { error: Option<ZitadelCLIError> },
}

/// The mathematical value of a [`PersonalAccessTokenLogin`].
pub ghost enum PersonalAccessTokenLoginView {
    Persisting,
    Finished { error: Option<ErrorView> },
}

impl View for PersonalAccessTokenLogin {
    type V = PersonalAccessTokenLoginView;

    open spec fn view(&self) -> PersonalAccessTokenLoginView {
        match self {
            PersonalAccessTokenLogin::Persisting => PersonalAccessTokenLoginView::Persisting,
            PersonalAccessTokenLogin::Finished { error } => PersonalAccessTokenLoginView::Finished {
                error: ending(*error),
            },
        }
    }
}

/// How a login begins: with the write of the token, as a JSON string, to the
/// credential file.
pub open spec fn begin(config: PersonalAccessTokenConfigView) -> (
    PersonalAccessTokenLoginView,
    ActionView,
) {
    (
        PersonalAccessTokenLoginView::Persisting,
        saving(
            config.config_file_path,
            CredentialView::PersonalAccessToken(config.personal_access_token),
        ),
    )
}

/// How a login goes on when an event is reported to it.
pub open spec fn next(state: PersonalAccessTokenLoginView, event: EventView) -> (
    PersonalAccessTokenLoginView,
    ActionView,
) {
    match (state, event) {
        (PersonalAccessTokenLoginView::Persisting, EventView::Persisted) => (
            PersonalAccessTokenLoginView::Finished { error: None },
            ActionView::Nothing,
        ),
        (PersonalAccessTokenLoginView::Persisting, EventView::PersistFailed { failure }) => (
            PersonalAccessTokenLoginView::Finished { error: Some(ErrorView::IO(failure)) },
            ActionView::Nothing,
        ),
        _ => (state, ActionView::Nothing),
    }
}

/// Begins a login with a personal access token.
pub fn login(config: PersonalAccessTokenFlowAppConfig) -> (r: (PersonalAccessTokenLogin, Action))
    ensures
        (r.0@, r.1@) == begin(config@),
{
    let credential = Credential::PersonalAccessToken(config.personal_access_token);
    (PersonalAccessTokenLogin::Persisting, save_config(config.config_file_path, &credential))
}

impl PersonalAccessTokenLogin {
    /// Takes the login on by one event.
    pub fn step(self, event: Event) -> (r: (PersonalAccessTokenLogin, Action))
        ensures
            (r.0@, r.1@) == next(self@, event@),
    {
        match (self, event) {
            (PersonalAccessTokenLogin::Persisting, Event::Persisted) => (
                PersonalAccessTokenLogin::Finished { error: None },
                Action::Nothing,
            ),
            (PersonalAccessTokenLogin::Persisting, Event::PersistFailed { failure }) => (
                PersonalAccessTokenLogin::Finished { error: Some(ZitadelCLIError::IO(failure)) },
                Action::Nothing,
            ),
            (state, _) => (state, Action::Nothing),
        }
    }

    /// Whether the login has ended.
    pub fn is_finished(&self) -> (finished: bool)
        ensures
            finished == (self@ is Finished),
    {
        match self {
            PersonalAccessTokenLogin::Persisting => false,
            PersonalAccessTokenLogin::Finished { .. } => true,
        }
    }

    /// How the login ended, once it has: well, or with an error.
    pub fn result(self) -> (r: Option<Result<(), ZitadelCLIError>>)
        ensures
            match r {
                None => self@ is Persisting,
                Some(Ok(())) => self@ == (PersonalAccessTokenLoginView::Finished { error: None }),
                Some(Err(e)) => self@ == (PersonalAccessTokenLoginView::Finished {
                    error: Some(e@),
                }),
            },
    {
        match self {
            PersonalAccessTokenLogin::Persisting => None,
            PersonalAccessTokenLogin::Finished { error: None } => Some(Ok(())),
            PersonalAccessTokenLogin::Finished { error: Some(e) } => Some(Err(e)),
        }
    }
}

/// The login writes the configured token, as the JSON string of exactly
/// that text, to the credential file, and asks for nothing else: the provider
/// is never called.
pub proof fn lemma_token_is_saved_as_configured(
    config: PersonalAccessTokenConfigView,
    event: EventView,
)
    ensures
        begin(config) == (
            PersonalAccessTokenLoginView::Persisting,
            ActionView::Persist {
                path: config.config_file_path,
                content: json_string_literal(config.personal_access_token),
            },
        ),
        next(begin(config).0, event).1 is Nothing,
        next(begin(config).0, EventView::Persisted).0
            == (PersonalAccessTokenLoginView::Finished { error: None }),
{
}

/// A login that has ended stays as it is and asks for nothing more.
pub proof fn lemma_finished_stays(state: PersonalAccessTokenLoginView, event: EventView)
    requires
        state is Finished,
    ensures
        next(state, event) == (state, ActionView::Nothing),
{
}

} // verus!
