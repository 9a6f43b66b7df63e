use vstd::prelude::*;
use crate::config::ConnectionString;
use crate::errors::{DriverFault, PoolError, StartupError};

verus! {

/// What the driver at the caller's edge reports after the one connection
/// attempt it was asked to make against a resolved target.
#[derive(Debug)]
pub enum ConnectOutcome {
    /// The driver opened the pool and validated at least one connection.
    Established,
    /// The target was unreachable or could not be opened; carries the cause.
    Refused(DriverFault),
}

/// A ready connection pool, as this component models it: the validated
/// target it was opened against. The live driver handles stay with the
/// caller that opened them; this component never mutates the pool after
/// creation and only hands it on.
#[derive(Debug)]
pub struct ConnectionPool {
    target: ConnectionString,
}

impl ConnectionPool {
    /// The address this pool was opened against.
    pub closed spec fn spec_target(&self) -> Seq<char> {
        self.target@
    }

    /// A pool is well-formed when it was opened against a well-formed target.
    pub open spec fn wf(&self) -> bool {
        self.spec_target().len() > 0
    }

    /// The address this pool was opened against.
    pub fn target(&self) -> (r: &ConnectionString)
        ensures
            r@ == self.spec_target(),
    {
        &self.target
    }
}

/// Fail-fast pool construction from the driver's report on `conn`: a ready
/// pool exactly when the driver established a validated connection, and
/// `PoolError::ConnectionFailed` wrapping the driver's cause exactly when it
/// refused. No partial pool is ever returned and no retry is attempted.
pub fn create_pool(conn: ConnectionString, outcome: ConnectOutcome) -> (r: Result<
    ConnectionPool,
    PoolError,
>)
    requires
        conn.wf(),
    ensures
        match r {
            Ok(p) => outcome is Established && p.spec_target() == conn@ && p.wf(),
            Err(e) => {
                &&& outcome matches ConnectOutcome::Refused(f)
                &&& e == PoolError::ConnectionFailed(f)
            },
        },
{
    match outcome {
        ConnectOutcome::Established => Ok(ConnectionPool { target: conn }),
        ConnectOutcome::Refused(f) => Err(PoolError::ConnectionFailed(f)),
    }
}

/// The application entry point boundary: takes ownership of the ready pool.
/// No behaviour is defined here beyond receiving it, so the call always
/// succeeds.
pub fn run_application(pool: ConnectionPool) -> (r: Result<(), StartupError>)
    requires
        pool.wf(),
    ensures
        r is Ok,
{
    let _ = pool;
    Ok(())
}

} // verus!
