use vstd::prelude::*;
use crate::errors::ConfigError;

verus! {

/// Explicit process configuration, captured once at startup and threaded to
/// the components that need it, instead of re-reading ambient state.
pub struct Config {
    /// The configured connection target, where the key was set at all.
    pub database_url: Option<String>,
}

impl Config {
    /// The configured target as a character sequence, where one is set.
    pub open spec fn url(&self) -> Option<Seq<char>> {
        match self.database_url {
            Some(s) => Some(s@),
            None => None,
        }
    }
}

/// What resolution yields on a given configuration: the configured value
/// where it is present and non-empty, and nothing otherwise.
pub open spec fn spec_resolved(url: Option<Seq<char>>) -> Option<Seq<char>> {
    match url {
        Some(u) => if u.len() > 0 {
            Some(u)
        } else {
            None
        },
        None => None,
    }
}

/// An opaque, driver-specific database address. Invariant: non-empty.
#[derive(Debug)]
pub struct ConnectionString {
    url: String,
}

impl View for ConnectionString {
    type V = Seq<char>;

    closed spec fn view(&self) -> Seq<char> {
        self.url@
    }
}

impl ConnectionString {
    /// A connection string is well-formed when its address is non-empty.
    pub open spec fn wf(&self) -> bool {
        self@.len() > 0
    }

    /// Accepts any non-empty address; an empty one is refused.
    pub fn new(url: String) -> (r: Option<ConnectionString>)
        ensures
            url@.len() == 0 ==> r is None,
            url@.len() > 0 ==> (r matches Some(c) && c@ == url@ && c.wf()),
    {
        if url.as_str().is_empty() {
            None
        } else {
            Some(ConnectionString { url })
        }
    }

    /// The address itself.
    pub fn as_str(&self) -> (r: &str)
        ensures
            r@ == self@,
    {
        self.url.as_str()
    }

    /// An equal copy of the address.
    pub fn duplicate(&self) -> (r: ConnectionString)
        ensures
            r@ == self@,
            r.wf() == self.wf(),
    {
        ConnectionString { url: self.url.clone() }
    }
}

/// Resolves the connection target from the given configuration: the
/// configured string where present and non-empty, `ConfigError::Missing`
/// otherwise. Resolution is pure; no connection is attempted here.
pub fn resolve_connection_string(cfg: &Config) -> (r: Result<ConnectionString, ConfigError>)
    ensures
        match r {
            Ok(c) => spec_resolved(cfg.url()) == Some(c@) && c.wf(),
            Err(e) => spec_resolved(cfg.url()) is None && e == ConfigError::Missing,
        },
{
    match &cfg.database_url {
        Some(s) => {
            if s.as_str().is_empty() {
                Err(ConfigError::Missing)
            } else {
                Ok(ConnectionString { url: s.clone() })
            }
        },
        None => Err(ConfigError::Missing),
    }
}

/// Resolution has no side effects and depends on the configured value alone:
/// resolving an unchanged configuration twice yields the identical outcome
/// both times, so no drift between the two reads is possible.
pub proof fn lemma_resolution_idempotent(a: Config, b: Config)
    requires
        a.url() == b.url(),
    ensures
        spec_resolved(a.url()) == spec_resolved(b.url()),
{
}

} // verus!
