use vstd::prelude::*;
use vstd::string::*;
use vstd::std_specs::convert::FromSpecImpl;
use crate::text::{lowercase_string, lowercase_text, same_text};

verus! {

/// What every application's configuration holds.
#[derive(Debug, Clone)]
#[non_exhaustive]
pub struct BaseAppConfig {
    pub name: String,
    pub version: Option<String>,
    pub env: Option<String>,
    /// The offset of the application's time zone from UTC in hours.
    pub timezone: Option<i8>,
}

/// The environment that an application runs in.
#[derive(Debug, Clone, PartialEq, Eq)]
#[non_exhaustive]
pub enum Env {
    Development,
    Staging,
    Production,
    /// Any other environment, by its name in lower case.
    Unknown(String),
}

/// Where the rest of a configuration is fetched from.
#[derive(Debug, Clone)]
#[non_exhaustive]
pub struct RemoteConfig {
    pub config: _RemoteConfig,
}

/// The address that a remote configuration is fetched from.
#[derive(Debug, Clone)]
pub struct _RemoteConfig {
    pub url: String,
}

/// An environment, as mathematical values.
pub ghost enum EnvModel {
    Development,
    Staging,
    Production,
    Unknown(Seq<char>),
}

impl View for Env {
    type V = EnvModel;

    open spec fn view(&self) -> EnvModel {
        match self {
            Env::Development => EnvModel::Development,
            Env::Staging => EnvModel::Staging,
            Env::Production => EnvModel::Production,
            Env::Unknown(name) => EnvModel::Unknown(name@),
        }
    }
}

/// The environment that a name in lower case stands for.
pub open spec fn env_of(name: Seq<char>) -> EnvModel {
    if name == "development"@ || name == "dev"@ || name == "sit"@ {
        EnvModel::Development
    } else if name == "staging"@ || name == "stg"@ {
        EnvModel::Staging
    } else if name == "production"@ || name == "prod"@ {
        EnvModel::Production
    } else {
        EnvModel::Unknown(name)
    }
}

impl From<String> for Env {
    /// The environment that a name stands for, whatever its case.
    fn from(value: String) -> (env: Self)
        ensures
            env@ == env_of(lowercase_text(value@)),
    {
        let lower = lowercase_string(value.as_str());
        let name = lower.as_str();
        if same_text(name, "development") || same_text(name, "dev") || same_text(name, "sit") {
            Env::Development
        } else if same_text(name, "staging") || same_text(name, "stg") {
            Env::Staging
        } else if same_text(name, "production") || same_text(name, "prod") {
            Env::Production
        } else {
            Env::Unknown(lower)
        }
    }
}

impl FromSpecImpl<String> for Env {
    open spec fn obeys_from_spec() -> bool {
        false
    }

    open spec fn from_spec(value: String) -> Self {
        Env::Unknown(value)
    }
}

} // verus!
