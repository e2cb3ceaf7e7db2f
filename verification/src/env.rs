//! The configuration that the client takes from its environment.

use crate::error::{outcome, ErrorView, ZitadelCLIError};
use crate::text::same_text;
use vstd::prelude::*;
use vstd::string::StringExecFns;

verus! {

/// The variables of the process environment: names with their values.
#[derive(Debug, Clone, PartialEq, Eq)]
pub struct Environment {
    pub variables: Vec<(String, String)>,
}

impl View for Environment {
    type V = Seq<(Seq<char>, Seq<char>)>;

    open spec fn view(&self) -> Seq<(Seq<char>, Seq<char>)> {
        Seq::new(self.variables@.len(), |i: int| self.variables@[i]@)
    }
}

/// The value of the first variable called `name`.
pub open spec fn lookup(variables: Seq<(Seq<char>, Seq<char>)>, name: Seq<char>) -> Option<
    Seq<char>,
>
    decreases variables.len(),
{
    if variables.len() == 0 {
        None
    } else if variables[0].0 == name {
        Some(variables[0].1)
    } else {
        lookup(variables.drop_first(), name)
    }
}

/// The value of a variable that has to be set.
pub open spec fn required(variables: Seq<(Seq<char>, Seq<char>)>, name: Seq<char>) -> Result<
    Seq<char>,
    ErrorView,
> {
    match lookup(variables, name) {
        Some(value) => Ok(value),
        None => Err(ErrorView::Configuration(name)),
    }
}

impl Environment {
    /// An environment of the given variables.
    pub fn new(variables: Vec<(String, String)>) -> (env: Environment)
        ensures
            env.variables == variables,
    {
        Environment { variables }
    }

    /// The value of the variable called `name`.
    pub fn var(&self, name: &str) -> (value: Option<String>)
        ensures
            value.deep_view() == lookup(self@, name@),
    {
        let mut i: usize = 0;
        assert(self@.skip(0) =~= self@);
        while i < self.variables.len()
            invariant
                i <= self.variables.len(),
                lookup(self@, name@) == lookup(self@.skip(i as int), name@),
            decreases self.variables.len() - i,
        {
            proof {
                assert(self@.skip(i as int).drop_first() =~= self@.skip(i + 1));
            }
            if same_text(self.variables[i].0.as_str(), name) {
                return Some(self.variables[i].1.clone());
            }
            i = i + 1;
        }
        None
    }

    /// The value of a variable that has to be set.
    pub fn require(&self, name: &str) -> (value: Result<String, ZitadelCLIError>)
        ensures
            outcome(value) == required(self@, name@),
    {
        match self.var(name) {
            Some(value) => Ok(value),
            None => Err(ZitadelCLIError::Configuration(String::from_str(name))),
        }
    }
}

/// The path of the file that holds the credential.
pub fn config_file_path(env: &Environment) -> (path: Result<String, ZitadelCLIError>)
    ensures
        outcome(path) == required(env@, "CONFIG_FILE_PATH"@),
{
    env.require("CONFIG_FILE_PATH")
}

/// The URL of the identity provider.
pub fn issuer(env: &Environment) -> (issuer: Result<String, ZitadelCLIError>)
    ensures
        outcome(issuer) == required(env@, "ISSUER"@),
{
    env.require("ISSUER")
}

/// The identifier of this client at the provider.
pub fn client_id(env: &Environment) -> (id: Result<String, ZitadelCLIError>)
    ensures
        outcome(id) == required(env@, "CLIENT_ID"@),
{
    env.require("CLIENT_ID")
}

/// The secret of this client at the provider.
pub fn client_secret(env: &Environment) -> (secret: Result<String, ZitadelCLIError>)
    ensures
        outcome(secret) == required(env@, "CLIENT_SECRET"@),
{
    env.require("CLIENT_SECRET")
}

/// The address on which the callback listener binds.
pub fn callback_server_address(env: &Environment) -> (address: Result<String, ZitadelCLIError>)
    ensures
        outcome(address) == required(env@, "CALLBACK_SERVER_ADDRESS"@),
{
    env.require("CALLBACK_SERVER_ADDRESS")
}

/// The scopes to ask the provider for.
pub fn scopes(env: &Environment) -> (scopes: Result<String, ZitadelCLIError>)
    ensures
        outcome(scopes) == required(env@, "SCOPES"@),
{
    env.require("SCOPES")
}

/// The personal access token.
pub fn personal_access_token(env: &Environment) -> (token: Result<String, ZitadelCLIError>)
    ensures
        outcome(token) == required(env@, "PERSONAL_ACCESS_TOKEN"@),
{
    env.require("PERSONAL_ACCESS_TOKEN")
}

/// Whether the callback listener is reached over https: only where the
/// variable `IS_SECURE` is set to `true`.
pub fn is_secure(env: &Environment) -> (secure: bool)
    ensures
        secure == (lookup(env@, "IS_SECURE"@) == Some("true"@)),
{
    match env.var("IS_SECURE") {
        Some(value) => same_text(value.as_str(), "true"),
        None => false,
    }
}

} // verus!
