use vstd::prelude::*;
use crate::config::{Config, ConnectionString, resolve_connection_string, spec_resolved};
use crate::errors::{ConfigError, PoolError, StartupError};
use crate::pool::{ConnectOutcome, ConnectionPool, create_pool};

verus! {

/// One structured diagnostic record, emitted in order during startup.
#[derive(Debug)]
pub enum Diagnostic {
    /// Informational: the target was resolved from configuration; carries the
    /// resolved address.
    TargetResolved(String),
    /// Informational: the pool is ready, with a validated connection.
    PoolEstablished,
    /// Error level: startup failed; carries the failure kind and cause.
    StartupFailed(StartupError),
}

/// The severity of a diagnostic record.
#[derive(Clone, Copy, Debug, PartialEq, Eq, Structural)]
pub enum DiagnosticLevel {
    /// Progress reporting.
    Informational,
    /// A terminal startup failure.
    Error,
}

impl Diagnostic {
    /// The severity of this record.
    pub open spec fn spec_level(&self) -> DiagnosticLevel {
        match self {
            Diagnostic::StartupFailed(_) => DiagnosticLevel::Error,
            _ => DiagnosticLevel::Informational,
        }
    }

    /// The severity of this record.
    pub fn level(&self) -> (r: DiagnosticLevel)
        ensures
            r == self.spec_level(),
    {
        match self {
            Diagnostic::StartupFailed(_) => DiagnosticLevel::Error,
            _ => DiagnosticLevel::Informational,
        }
    }
}

/// Where startup stands. Terminal states have no outgoing transition:
/// recovery or retry is a non-goal of this component.
#[derive(Debug)]
pub enum StartupState {
    /// Nothing has happened yet.
    Unstarted,
    /// The target was resolved; a connection attempt is owed next.
    ConfigResolved(ConnectionString),
    /// The pool is ready for handoff.
    PoolReady(ConnectionPool),
    /// Startup failed; the first failure is terminal.
    Failed(StartupError),
}

/// The startup machine: drives `Unstarted -> ConfigResolved -> PoolReady`
/// (success) or short-circuits to `Failed` at the first error, recording
/// each diagnostic in order as it is emitted. Configuration resolution
/// strictly precedes the one connection request, which strictly precedes the
/// pool handoff; nothing is skipped or reordered.
pub struct Startup {
    state: StartupState,
    log: Vec<Diagnostic>,
}

impl Startup {
    /// Where the machine stands.
    pub closed spec fn spec_state(&self) -> StartupState {
        self.state
    }

    /// Every diagnostic emitted so far, oldest first.
    pub closed spec fn spec_log(&self) -> Seq<Diagnostic> {
        self.log@
    }

    /// The machine's invariant, tying the state to the emitted diagnostics:
    /// an unstarted machine has said nothing; a resolved one has announced
    /// exactly its target; a ready one has announced the target and then the
    /// pool; a failed one ends its log with the failure, with the target
    /// announced before it exactly when resolution had succeeded.
    pub open spec fn wf(&self) -> bool {
        match self.spec_state() {
            StartupState::Unstarted => self.spec_log().len() == 0,
            StartupState::ConfigResolved(c) => {
                &&& c.wf()
                &&& self.spec_log().len() == 1
                &&& self.spec_log()[0] matches Diagnostic::TargetResolved(u) && u@ == c@
            },
            StartupState::PoolReady(p) => {
                &&& p.wf()
                &&& self.spec_log().len() == 2
                &&& self.spec_log()[0] matches Diagnostic::TargetResolved(u) && u@
                    == p.spec_target()
                &&& self.spec_log()[1] is PoolEstablished
            },
            StartupState::Failed(e) => match e {
                StartupError::Config(ce) => {
                    &&& self.spec_log().len() == 1
                    &&& self.spec_log()[0] == Diagnostic::StartupFailed(StartupError::Config(ce))
                },
                StartupError::Pool(pe) => {
                    &&& self.spec_log().len() == 2
                    &&& self.spec_log()[0] is TargetResolved
                    &&& self.spec_log()[1] == Diagnostic::StartupFailed(StartupError::Pool(pe))
                },
            },
        }
    }

    /// The machine can go no further: it holds a ready pool or a failure.
    pub open spec fn is_terminal(&self) -> bool {
        self.spec_state() is PoolReady || self.spec_state() is Failed
    }

    /// Where the machine stands.
    pub fn state(&self) -> (r: &StartupState)
        ensures
            *r == self.spec_state(),
    {
        &self.state
    }

    /// Every diagnostic emitted so far, oldest first.
    pub fn log(&self) -> (r: &Vec<Diagnostic>)
        ensures
            r@ == self.spec_log(),
    {
        &self.log
    }

    /// A fresh machine: nothing resolved, nothing emitted.
    pub fn new() -> (r: Startup)
        ensures
            r.wf(),
            r.spec_state() is Unstarted,
            r.spec_log().len() == 0,
    {
        Startup { state: StartupState::Unstarted, log: Vec::new() }
    }

    /// The first step: resolve the connection target from configuration.
    /// On success the machine announces the resolved target and hands back
    /// the one connection request it makes; the caller's driver performs the
    /// attempt and reports through `connected`. On a missing target the
    /// machine is terminal at once with `ConfigError::Missing`, and requests
    /// no connection at all.
    pub fn resolve(&mut self, cfg: &Config) -> (request: Option<ConnectionString>)
        requires
            old(self).wf(),
            old(self).spec_state() is Unstarted,
        ensures
            final(self).wf(),
            match spec_resolved(cfg.url()) {
                Some(u) => {
                    &&& final(self).spec_state() matches StartupState::ConfigResolved(c) && c@ == u
                    &&& request matches Some(t) && t@ == u && t.wf()
                    &&& final(self).spec_log().len() == 1
                    &&& final(self).spec_log()[0] matches Diagnostic::TargetResolved(s) && s@ == u
                },
                None => {
                    &&& final(self).spec_state() == StartupState::Failed(
                        StartupError::Config(ConfigError::Missing),
                    )
                    &&& request is None
                    &&& final(self).spec_log() =~= seq![
                        Diagnostic::StartupFailed(StartupError::Config(ConfigError::Missing)),
                    ]
                },
            },
    {
        match resolve_connection_string(cfg) {
            Ok(c) => {
                let announced = c.as_str().to_owned();
                let request = c.duplicate();
                self.log.push(Diagnostic::TargetResolved(announced));
                self.state = StartupState::ConfigResolved(c);
                Some(request)
            },
            Err(e) => {
                self.log.push(Diagnostic::StartupFailed(StartupError::Config(e)));
                self.state = StartupState::Failed(StartupError::Config(e));
                None
            },
        }
    }

    /// The second step: record the driver's report on the requested
    /// connection attempt. An established connection makes the pool ready
    /// and announces it; a refusal is terminal with
    /// `PoolError::ConnectionFailed` wrapping the driver's cause. Either way
    /// the machine is terminal afterwards.
    pub fn connected(&mut self, outcome: ConnectOutcome)
        requires
            old(self).wf(),
            old(self).spec_state() is ConfigResolved,
        ensures
            final(self).wf(),
            final(self).is_terminal(),
            match outcome {
                ConnectOutcome::Established => {
                    &&& final(self).spec_state() matches StartupState::PoolReady(p) && old(
                        self,
                    ).spec_state() matches StartupState::ConfigResolved(c) && p.spec_target()
                        == c@
                    &&& final(self).spec_log() =~= old(self).spec_log().push(
                        Diagnostic::PoolEstablished,
                    )
                },
                ConnectOutcome::Refused(f) => {
                    &&& final(self).spec_state() == StartupState::Failed(
                        StartupError::Pool(PoolError::ConnectionFailed(f)),
                    )
                    &&& final(self).spec_log() =~= old(self).spec_log().push(
                        Diagnostic::StartupFailed(
                            StartupError::Pool(PoolError::ConnectionFailed(f)),
                        ),
                    )
                },
            },
    {
        let target = match &self.state {
            StartupState::ConfigResolved(c) => c.duplicate(),
            _ => vstd::pervasive::unreached(),
        };
        match create_pool(target, outcome) {
            Ok(p) => {
                self.log.push(Diagnostic::PoolEstablished);
                self.state = StartupState::PoolReady(p);
            },
            Err(e) => {
                let failure = StartupError::Pool(e);
                self.log.push(Diagnostic::StartupFailed(failure.duplicate()));
                self.state = StartupState::Failed(failure);
            },
        }
    }

    /// The startup outcome, once the machine is terminal: the ready pool on
    /// the success path, the first failure otherwise.
    pub fn into_result(self) -> (r: Result<ConnectionPool, StartupError>)
        requires
            self.wf(),
            self.is_terminal(),
        ensures
            self.spec_state() matches StartupState::PoolReady(p) ==> (r matches Ok(q) && q == p
                && q.wf()),
            self.spec_state() matches StartupState::Failed(e) ==> (r matches Err(d) && d == e),
    {
        match self.state {
            StartupState::PoolReady(p) => Ok(p),
            StartupState::Failed(e) => Err(e),
            _ => vstd::pervasive::unreached(),
        }
    }
}

/// Begins fail-fast startup on the given configuration: a fresh machine
/// that has taken its first step. Resolution strictly precedes any
/// connection request; on a missing target the machine is already terminal
/// and no request is made.
pub fn startup(cfg: &Config) -> (r: (Startup, Option<ConnectionString>))
    ensures
        r.0.wf(),
        match spec_resolved(cfg.url()) {
            Some(u) => {
                &&& r.0.spec_state() matches StartupState::ConfigResolved(c) && c@ == u
                &&& r.1 matches Some(t) && t@ == u && t.wf()
                &&& r.0.spec_log().len() == 1
                &&& r.0.spec_log()[0] matches Diagnostic::TargetResolved(s) && s@ == u
            },
            None => {
                &&& r.0.spec_state() == StartupState::Failed(
                    StartupError::Config(ConfigError::Missing),
                )
                &&& r.0.is_terminal()
                &&& r.1 is None
            },
        },
{
    let mut machine = Startup::new();
    let request = machine.resolve(cfg);
    (machine, request)
}

/// Ordering law: in every well-formed machine, the informational record that
/// announces the resolved target stands strictly before the record that
/// announces the established pool. A connection is never reported, let alone
/// made, before resolution has completed.
pub proof fn lemma_resolved_precedes_established(m: Startup, j: int)
    requires
        m.wf(),
        0 <= j < m.spec_log().len(),
        m.spec_log()[j] is PoolEstablished,
    ensures
        exists|i: int| 0 <= i < j && (#[trigger] m.spec_log()[i]) is TargetResolved,
{
    assert(j == 1);
    assert(m.spec_log()[0] is TargetResolved);
}

/// Fail-fast law: a failed startup never announces an established pool, so
/// no partial success is left behind for later use.
pub proof fn lemma_failed_announces_no_pool(m: Startup, j: int)
    requires
        m.wf(),
        m.spec_state() is Failed,
        0 <= j < m.spec_log().len(),
    ensures
        !(m.spec_log()[j] is PoolEstablished),
{
}

} // verus!
