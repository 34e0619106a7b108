//! Run settings: the API key, the model, the iteration budget and the
//! workspace.

use vstd::prelude::*;

use crate::text::concat3;
use vstd::string::StringExecFns;

verus! {

/// The settings of one run.
#[derive(Debug)]
pub struct Config {
    pub api_key: String,
    pub model: String,
    pub max_iterations: u32,
    /// The workspace directory, already made absolute.
    pub workspace: String,
}

/// Why the settings cannot be made.
#[derive(Debug)]
pub enum ConfigError {
    /// No usable API key: none given and none in the environment, or an
    /// empty one.
    MissingApiKey,
    /// The workspace directory could not be resolved.
    Workspace { path: String, reason: String },
}

/// The API key in effect: the one given on the command line, else the one
/// from the environment; an empty key counts as none.
pub open spec fn effective_api_key(given: Option<Seq<char>>, env: Option<Seq<char>>) -> Option<
    Seq<char>,
> {
    let key = match given {
        Some(k) => Some(k),
        None => env,
    };
    match key {
        Some(k) => if k.len() == 0 {
            None
        } else {
            Some(k)
        },
        None => None,
    }
}

impl ConfigError {
    pub open spec fn text(&self) -> Seq<char> {
        match self {
            ConfigError::MissingApiKey => "DEEPSEEK_API_KEY not set. Use --api-key or set the env var."@,
            ConfigError::Workspace { path, reason } => "Failed to canonicalize workspace path '"@
                + path@ + "': "@ + reason@,
        }
    }

    /// The text the error is reported with.
    pub fn message(&self) -> (m: String)
        ensures
            m@ == self.text(),
    {
        match self {
            ConfigError::MissingApiKey => String::from_str(
                "DEEPSEEK_API_KEY not set. Use --api-key or set the env var.",
            ),
            ConfigError::Workspace { path, reason } => {
                let mut m = concat3("Failed to canonicalize workspace path '", path.as_str(), "': ");
                m.append(reason.as_str());
                m
            },
        }
    }
}

impl Config {
    /// Settles the settings.  The API key is required (see
    /// `effective_api_key`); the model defaults to `deepseek-chat` and the
    /// iteration budget to 20.  `workspace` is the outcome of resolving the
    /// workspace directory: its absolute path, or the path as given and
    /// the reason it could not be resolved.  A missing key is reported
    /// before a workspace failure.
    pub fn new(
        api_key: Option<String>,
        env_api_key: Option<String>,
        model: Option<String>,
        max_iterations: Option<u32>,
        workspace: Result<String, (String, String)>,
    ) -> (r: Result<Config, ConfigError>)
        ensures
            match r {
                Ok(c) => {
                    &&& effective_api_key(api_key.deep_view(), env_api_key.deep_view()) == Some(
                        c.api_key@,
                    )
                    &&& c.model@ == match model.deep_view() {
                        Some(m) => m,
                        None => "deepseek-chat"@,
                    }
                    &&& c.max_iterations == match max_iterations {
                        Some(n) => n,
                        None => 20u32,
                    }
                    &&& workspace matches Ok(w) && c.workspace@ == w@
                },
                Err(e) => match e {
                    ConfigError::MissingApiKey => effective_api_key(
                        api_key.deep_view(),
                        env_api_key.deep_view(),
                    ) is None,
                    ConfigError::Workspace { path, reason } => {
                        &&& effective_api_key(api_key.deep_view(), env_api_key.deep_view()) is Some
                        &&& workspace matches Err(w) && path@ == w.0@ && reason@ == w.1@
                    },
                },
            },
    {
        let key = match api_key {
            Some(k) => Some(k),
            None => env_api_key,
        };
        let api_key = match key {
            Some(k) => if k.as_str().is_empty() {
                return Err(ConfigError::MissingApiKey);
            } else {
                k
            },
            None => return Err(ConfigError::MissingApiKey),
        };
        let model = match model {
            Some(m) => m,
            None => String::from_str("deepseek-chat"),
        };
        let max_iterations = match max_iterations {
            Some(n) => n,
            None => 20,
        };
        let workspace = match workspace {
            Ok(w) => w,
            Err((path, reason)) => return Err(ConfigError::Workspace { path, reason }),
        };
        Ok(Config { api_key, model, max_iterations, workspace })
    }
}

} // verus!
