use vstd::prelude::*;
use vstd::string::StringExecFns;

verus! {

/// A configuration failure found while resolving the connection target.
#[derive(Clone, Copy, Debug, PartialEq, Eq, Structural)]
pub enum ConfigError {
    /// The required configuration key is absent or unset. No default target is
    /// substituted: a missing connection target is a terminal startup error.
    Missing,
}

impl ConfigError {
    /// The description shown for a missing connection target.
    pub open spec fn spec_message(&self) -> Seq<char> {
        "Environment variable not set: DATABASE_URL"@
    }

    /// Human-readable description of the failure.
    pub fn message(&self) -> (r: String)
        ensures
            r@ == self.spec_message(),
    {
        "Environment variable not set: DATABASE_URL".to_owned()
    }
}

/// The underlying driver's failure cause, kept as structured data rather than
/// a pre-formatted message, so callers can diagnose without parsing.
#[derive(Debug, PartialEq, Eq)]
pub struct DriverFault {
    /// The driver's own description of what went wrong.
    pub detail: String,
}

impl DriverFault {
    /// An equal copy of the fault.
    pub fn duplicate(&self) -> (r: DriverFault)
        ensures
            r == *self,
    {
        DriverFault { detail: self.detail.clone() }
    }
}

/// A pool-construction failure.
#[derive(Debug, PartialEq, Eq)]
pub enum PoolError {
    /// The target was unreachable, rejected the credentials, or could not be
    /// opened; wraps the underlying driver cause.
    ConnectionFailed(DriverFault),
}

impl PoolError {
    /// The description shown for a failed connection: a fixed prefix followed
    /// by the driver's cause.
    pub open spec fn spec_message(&self) -> Seq<char> {
        match self {
            PoolError::ConnectionFailed(f) => "Database connection error: "@ + f.detail@,
        }
    }

    /// Human-readable description of the failure, carrying the cause.
    pub fn message(&self) -> (r: String)
        ensures
            r@ == self.spec_message(),
    {
        match self {
            PoolError::ConnectionFailed(f) => {
                "Database connection error: ".to_owned().concat(f.detail.as_str())
            },
        }
    }

    /// An equal copy of the failure.
    pub fn duplicate(&self) -> (r: PoolError)
        ensures
            r == *self,
    {
        match self {
            PoolError::ConnectionFailed(f) => PoolError::ConnectionFailed(f.duplicate()),
        }
    }
}

/// Either way startup can fail, fail-fast: the first failure is terminal and
/// propagates unchanged to the process boundary.
#[derive(Debug, PartialEq, Eq)]
pub enum StartupError {
    /// Configuration resolution failed; no connection was attempted.
    Config(ConfigError),
    /// Pool construction failed after the target had been resolved.
    Pool(PoolError),
}

impl StartupError {
    /// The description of the failure, as the wrapped kind words it.
    pub open spec fn spec_message(&self) -> Seq<char> {
        match self {
            StartupError::Config(e) => e.spec_message(),
            StartupError::Pool(e) => e.spec_message(),
        }
    }

    /// Human-readable description of the failure.
    pub fn message(&self) -> (r: String)
        ensures
            r@ == self.spec_message(),
    {
        match self {
            StartupError::Config(e) => e.message(),
            StartupError::Pool(e) => e.message(),
        }
    }

    /// An equal copy of the failure.
    pub fn duplicate(&self) -> (r: StartupError)
        ensures
            r == *self,
    {
        match self {
            StartupError::Config(e) => StartupError::Config(*e),
            StartupError::Pool(e) => StartupError::Pool(e.duplicate()),
        }
    }
}

} // verus!
