//! The commands of the client, and what each of them asks for.

use crate::flows::Flow;
use vstd::prelude::*;

verus! {

/// What to do with human users.
#[derive(Debug, Clone, PartialEq, Eq)]
pub enum HumanUserCommand {
    /// Add the user that the file at `file_path` describes.
    Add { file_path: String },
}

/// What to do with projects.
#[derive(Debug, Clone, PartialEq, Eq)]
pub enum ProjectCommand {
    /// Add the project that the file at `file_path` describes.
    Add { file_path: String },
}

/// What to do with organizations.
#[derive(Debug, Clone, PartialEq, Eq)]
pub enum OrgCommand {
    /// Add the organization that the file at `file_path` describes.
    Add { file_path: String },
}

/// An identity provider by its kind.
#[derive(Debug, Clone, PartialEq, Eq)]
pub enum IdpProvider {
    /// The Google provider that the file at `file_path` describes.
    Google { file_path: String },
}

/// What to do with identity providers.
#[derive(Debug, Clone, PartialEq, Eq)]
pub enum IdpCommand {
    Add { provider: IdpProvider },
}

/// The commands of the client.
#[derive(Debug, Clone, PartialEq, Eq)]
pub enum Commands {
    /// Logs the user in.
    Login {
        /// Whether to open the browser for the user.
        open: bool,
        flow: Flow,
    },
    HumanUser { human_user_command: HumanUserCommand },
    Project { project_command: ProjectCommand },
    Org { org_command: OrgCommand },
    Idp { idp_command: IdpCommand },
    /// Logs the user out.
    Logout {},
}

/// A command line, read.
#[derive(Debug, Clone, PartialEq, Eq)]
pub struct Cli {
    pub command: Commands,
}

/// A resource to add at the provider, with the file that describes it.
#[derive(Debug, Clone, PartialEq, Eq)]
pub enum Ressource {
    /// An organization.
    Org { file_path: String },
    /// A human user.
    HumanUser { file_path: String },
    /// A project.
    Project { file_path: String },
    /// An identity provider.
    Idp { idp: IdpProvider },
}

/// What a command line asks for.
#[derive(Debug, Clone, PartialEq, Eq)]
pub enum Task {
    /// Log in by `flow`.
    Login { flow: Flow, open_browser: bool },
    /// Remove the credential.
    Logout,
    /// Add a resource.
    Add { ressource: Ressource },
}

/// The path of the provider's interface to which a resource is posted.
pub open spec fn endpoint_of(ressource: Ressource) -> Seq<char> {
    match ressource {
        Ressource::Org { .. } => "/v2/organizations"@,
        Ressource::HumanUser { .. } => "/v2/users/human"@,
        Ressource::Project { .. } => "/management/v1/projects"@,
        Ressource::Idp { idp: IdpProvider::Google { .. } } => "/management/v1/idps/google"@,
    }
}

/// The path of the file that describes a resource.
pub open spec fn description_of(ressource: Ressource) -> String {
    match ressource {
        Ressource::Org { file_path } => file_path,
        Ressource::HumanUser { file_path } => file_path,
        Ressource::Project { file_path } => file_path,
        Ressource::Idp { idp: IdpProvider::Google { file_path } } => file_path,
    }
}

/// What a command line asks for.
pub open spec fn task_of(cli: Cli) -> Task {
    match cli.command {
        Commands::Login { open, flow } => Task::Login { flow, open_browser: open },
        Commands::Logout {  } => Task::Logout,
        Commands::HumanUser {
            human_user_command: HumanUserCommand::Add { file_path },
        } => Task::Add { ressource: Ressource::HumanUser { file_path } },
        Commands::Project { project_command: ProjectCommand::Add { file_path } } => Task::Add {
            ressource: Ressource::Project { file_path },
        },
        Commands::Org { org_command: OrgCommand::Add { file_path } } => Task::Add {
            ressource: Ressource::Org { file_path },
        },
        Commands::Idp { idp_command: IdpCommand::Add { provider } } => Task::Add {
            ressource: Ressource::Idp { idp: provider },
        },
    }
}

impl Ressource {
    /// The path of the provider's interface to which the resource is posted.
    pub fn endpoint(&self) -> (path: &'static str)
        ensures
            path@ == endpoint_of(*self),
    {
        match self {
            Ressource::Org { .. } => "/v2/organizations",
            Ressource::HumanUser { .. } => "/v2/users/human",
            Ressource::Project { .. } => "/management/v1/projects",
            Ressource::Idp { idp } => match idp {
                IdpProvider::Google { .. } => "/management/v1/idps/google",
            },
        }
    }

    /// The path of the file that describes the resource.
    pub fn file_path(&self) -> (path: &String)
        ensures
            *path == description_of(*self),
    {
        match self {
            Ressource::Org { file_path } => file_path,
            Ressource::HumanUser { file_path } => file_path,
            Ressource::Project { file_path } => file_path,
            Ressource::Idp { idp } => match idp {
                IdpProvider::Google { file_path } => file_path,
            },
        }
    }
}

impl Cli {
    /// What this command line asks for.
    pub fn task(self) -> (task: Task)
        ensures
            task == task_of(self),
    {
        match self.command {
            Commands::Login { open, flow } => Task::Login { flow, open_browser: open },
            Commands::Logout {  } => Task::Logout,
            Commands::HumanUser { human_user_command } => match human_user_command {
                HumanUserCommand::Add { file_path } => Task::Add {
                    ressource: Ressource::HumanUser { file_path },
                },
            },
            Commands::Project { project_command } => match project_command {
                ProjectCommand::Add { file_path } => Task::Add {
                    ressource: Ressource::Project { file_path },
                },
            },
            Commands::Org { org_command } => match org_command {
                OrgCommand::Add { file_path } => Task::Add {
                    ressource: Ressource::Org { file_path },
                },
            },
            Commands::Idp { idp_command } => match idp_command {
                IdpCommand::Add { provider } => Task::Add {
                    ressource: Ressource::Idp { idp: provider },
                },
            },
        }
    }
}

} // verus!
