//! Start-up configuration: command-line switches and the settings of the
//! secrets service.

use vstd::prelude::*;

verus! {

/// The command-line switches of a bot program.
pub struct Cli {
    /// Run the health check and exit.
    pub check: bool,
    /// Run database migrations.
    pub migrate: bool,
}

/// Where and as whom the secrets service is reached.
#[derive(Debug, Clone)]
pub struct InfisicalConfig {
    pub api_url: String,
    pub client_id: String,
    pub client_secret: String,
    pub project_id: String,
    pub environment: String,
}

/// The environment used when none is configured.
pub open spec fn default_environment() -> Seq<char> {
    "dev"@
}

impl InfisicalConfig {
    /// Builds the configuration from the values of the settings
    /// `INFISICAL_CLIENT_ID`, `INFISICAL_CLIENT_SECRET`,
    /// `INFISICAL_PROJECT_ID`, `INFISICAL_API_URL` (all of which must be
    /// set) and `INFISICAL_ENVIRONMENT` (which defaults to `dev`).
    pub fn from_env(
        client_id: Option<String>,
        client_secret: Option<String>,
        project_id: Option<String>,
        api_url: Option<String>,
        environment: Option<String>,
    ) -> (config: Option<Self>)
        requires
            client_id is Some,
            client_secret is Some,
            project_id is Some,
            api_url is Some,
        ensures
            config matches Some(c) && {
                &&& c.client_id == client_id->0
                &&& c.client_secret == client_secret->0
                &&& c.project_id == project_id->0
                &&& c.api_url == api_url->0
                &&& c.environment@ == (match environment {
                    Some(e) => e@,
                    None => default_environment(),
                })
            },
    {
        let environment = match environment {
            Some(e) => e,
            None => String::from_str("dev"),
        };
        Some(InfisicalConfig {
            api_url: api_url.unwrap(),
            client_id: client_id.unwrap(),
            client_secret: client_secret.unwrap(),
            project_id: project_id.unwrap(),
            environment,
        })
    }
}

} // verus!
