//! The data source's startup configuration: the two identifiers that scope
//! the repository listing, validated once before any network call is made.

use vstd::prelude::*;

verus! {

/// The identifiers that scope a repository listing: the organization and
/// the project to list repositories of.
#[derive(Clone, Debug)]
pub struct Config {
    pub organization: String,
    pub project: String,
}

/// A required configuration value is missing: fatal, reported before any
/// network or terminal work starts.
#[derive(Clone, Copy, Debug, PartialEq, Eq, Structural)]
pub enum ConfigError {
    MissingOrganization,
    MissingProject,
}

impl ConfigError {
    /// A message naming the missing value.
    pub fn message(&self) -> (m: &'static str)
        ensures
            self is MissingOrganization ==> m@ == "Must define ADO_ORGANIZATION"@,
            self is MissingProject ==> m@ == "Must define ADO_PROJECT"@,
    {
        match self {
            ConfigError::MissingOrganization => "Must define ADO_ORGANIZATION",
            ConfigError::MissingProject => "Must define ADO_PROJECT",
        }
    }
}

/// Validates the startup configuration: both identifiers must be present.
/// A missing organization is reported first; with both present the
/// configuration holds them unchanged.
pub fn validate_config(organization: Option<String>, project: Option<String>) -> (r: Result<
    Config,
    ConfigError,
>)
    ensures
        organization is None ==> r == Result::<Config, ConfigError>::Err(
            ConfigError::MissingOrganization,
        ),
        organization is Some && project is None ==> r == Result::<Config, ConfigError>::Err(
            ConfigError::MissingProject,
        ),
        organization is Some && project is Some ==> (r matches Ok(c) && c.organization
            == organization->Some_0 && c.project == project->Some_0),
{
    let o = match organization {
        None => {
            return Err(ConfigError::MissingOrganization);
        },
        Some(o) => o,
    };
    let p = match project {
        None => {
            return Err(ConfigError::MissingProject);
        },
        Some(p) => p,
    };
    Ok(Config { organization: o, project: p })
}

/// The states a work-item query may filter by.
#[derive(Clone, Copy, Debug, PartialEq, Eq, Structural)]
pub enum WorkItemStatus {
    InProgress,
    OnHold,
}

} // verus!
