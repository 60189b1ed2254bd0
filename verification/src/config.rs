//! Configuration carried into the core.
//!
//! Secrets and server settings are loaded once at process start, outside
//! this library, and passed in by value: no component reads the environment
//! at call time. Absence of a secret is a fatal configuration error at the
//! boundary that loads it.

use vstd::prelude::*;

verus! {

/// Everything the surrounding service is configured with.
#[derive(Debug, Clone)]
pub struct DotEnvyConfig {
    pub server: Server,
    pub frontend: Frontend,
    pub database: Database,
}

/// HTTP server settings.
#[derive(Debug, Clone)]
pub struct Server {
    pub port: u16,
    pub body_limit: u64,
    pub timeout: u64,
    pub path_prefix: String,
}

/// Frontend origins allowed by the transport.
#[derive(Debug, Clone)]
pub struct Frontend {
    pub development_url: String,
    pub production_url: String,
}

/// Storage location; opaque to this core.
#[derive(Debug, Clone)]
pub struct Database {
    pub url: String,
}

/// The patient audience's signing secrets: one for access tokens, an
/// independent one for refresh tokens.
#[derive(Debug, Clone)]
pub struct PatientsSecret {
    pub secret: String,
    pub refresh_secret: String,
}

/// The doctor audience's signing secrets.
#[derive(Debug, Clone)]
pub struct DoctorsSecret {
    pub secret: String,
    pub refresh_secret: String,
}

/// The deployment stage. Cookies are marked `Secure` only in production.
#[derive(Debug, Clone, Copy, PartialEq, Eq, Structural)]
pub enum Stage {
    Local,
    Development,
    Production,
}

/// The stage a configuration text denotes, if any; matching is exact.
pub open spec fn spec_stage_from_text(s: Seq<char>) -> Option<Stage> {
    if s == "local"@ {
        Some(Stage::Local)
    } else if s == "development"@ {
        Some(Stage::Development)
    } else if s == "production"@ {
        Some(Stage::Production)
    } else {
        None
    }
}

impl Stage {
    /// Parses a configuration text; an unknown or empty text is no stage,
    /// and loaders fall back to the default.
    pub fn from_text(s: &str) -> (res: Option<Stage>)
        ensures
            res == spec_stage_from_text(s@),
    {
        let owned = s.to_owned();
        if owned == String::from_str("local") {
            Some(Stage::Local)
        } else if owned == String::from_str("development") {
            Some(Stage::Development)
        } else if owned == String::from_str("production") {
            Some(Stage::Production)
        } else {
            None
        }
    }

    /// Whether transport cookies must carry the `Secure` attribute.
    pub fn is_production(&self) -> (res: bool)
        ensures
            res == (*self == Stage::Production),
    {
        match self {
            Stage::Production => true,
            _ => false,
        }
    }
}

impl Default for Stage {
    /// Absent or unknown stage text falls back to local.
    fn default() -> (res: Self)
        ensures
            res == Stage::Local,
    {
        Stage::Local
    }
}

} // verus!
