//! The order of a guarded write, as a state machine driven by the outcomes of its statements.
//!
//! A guarded write runs in one transaction: the rules on the locked rows are checked (and any
//! side writes, such as moving a category subtree, are staged), then the statement that carries
//! the caller's version runs. If it matches, the transaction commits; if it matches nothing, a
//! probe reads the row's version and the transaction rolls back, so a stale version or a missing
//! row leaves the store exactly as it was, side writes included.
use vstd::prelude::*;

use crate::contract::{ServiceError, ServiceErrorKind};
use crate::ports::StaleVersion;
use crate::repository::{fails_with, guarded_miss_outcome};

verus! {

/// Which statement a guarded write is waiting on.
#[derive(Clone, Copy, Debug, PartialEq, Eq, Structural)]
pub enum GuardedPhase {
    /// The rules on the locked rows, with their side writes.
    Checking,
    /// The statement that carries the caller's version.
    Updating,
    /// The read of the row's version after that statement matched nothing.
    Probing,
}

/// An open guarded write over a store whose contents are `S`: what the store held when the
/// transaction began, and what the transaction has staged so far.
#[derive(Debug)]
pub struct GuardedTransaction<S> {
    /// Names the row in a not-found answer (`sku`, `category`, ...).
    pub subject: String,
    pub expected_version: i64,
    pub phase: GuardedPhase,
    pub before: S,
    pub staged: S,
}

/// What the statement the write waited on answered.
#[derive(Debug)]
pub enum GuardedEvent<S> {
    /// The rules refused (`Err`), or passed with the side writes staged into the given contents.
    Checked(Result<S, ServiceError>),
    /// The guarded statement matched and left the given contents, or matched nothing.
    Updated(Option<S>),
    /// The live row's version, or none when no live row remains.
    Probed(Option<i64>),
}

/// What a guarded write does next.
#[derive(Debug)]
pub enum GuardedStep<S> {
    /// Run the statement that carries the caller's version.
    RunGuardedUpdate(GuardedTransaction<S>),
    /// Read the row's version to tell a stale write from a missing row.
    ProbeVersion(GuardedTransaction<S>),
    /// Commit: the store now holds these contents, and the write is applied.
    Commit(S),
    /// Roll back: the store holds these contents again, and the write is answered as given.
    RollBack(S, Result<StaleVersion, ServiceError>),
}

/// Whether `event` answers the statement a write in `phase` waits on.
pub open spec fn answers<S>(phase: GuardedPhase, event: GuardedEvent<S>) -> bool {
    match event {
        GuardedEvent::Checked(_) => phase == GuardedPhase::Checking,
        GuardedEvent::Updated(_) => phase == GuardedPhase::Updating,
        GuardedEvent::Probed(_) => phase == GuardedPhase::Probing,
    }
}

/// Decides a guarded write's next action from its state and the answer of the statement it
/// waited on. A refusal by the rules, a stale version and a missing row all roll back to the
/// contents the write began with; only a matched guarded statement commits. Every continuing
/// step keeps what the store held at the start.
pub fn guarded_write_step<S>(tx: GuardedTransaction<S>, event: GuardedEvent<S>) -> (r: GuardedStep<S>)
    requires
        answers(tx.phase, event),
    ensures
        match event {
            GuardedEvent::Checked(Err(e)) => r matches GuardedStep::RollBack(s, answer) && s
                == tx.before && answer == Err::<StaleVersion, ServiceError>(e),
            GuardedEvent::Checked(Ok(staged)) => r matches GuardedStep::RunGuardedUpdate(next)
                && next.phase == GuardedPhase::Updating && next.before == tx.before && next.staged
                == staged && next.subject == tx.subject && next.expected_version
                == tx.expected_version,
            GuardedEvent::Updated(Some(written)) => r matches GuardedStep::Commit(s) && s
                == written,
            GuardedEvent::Updated(None) => r matches GuardedStep::ProbeVersion(next) && next.phase
                == GuardedPhase::Probing && next.before == tx.before && next.staged == tx.staged
                && next.subject == tx.subject && next.expected_version == tx.expected_version,
            GuardedEvent::Probed(Some(actual)) => r matches GuardedStep::RollBack(s, answer) && s
                == tx.before && answer == Ok::<StaleVersion, ServiceError>(
                StaleVersion { expected: tx.expected_version, actual },
            ),
            GuardedEvent::Probed(None) => r matches GuardedStep::RollBack(s, answer) && s
                == tx.before && fails_with(
                answer,
                ServiceErrorKind::NotFound,
                tx.subject@ + " was not found"@,
            ),
        },
        r matches GuardedStep::RollBack(s, _) ==> s == tx.before,
        r matches GuardedStep::RunGuardedUpdate(next) ==> next.before == tx.before,
        r matches GuardedStep::ProbeVersion(next) ==> next.before == tx.before,
{
    let GuardedTransaction { subject, expected_version, phase: _, before, staged } = tx;
    match event {
        GuardedEvent::Checked(Err(e)) => GuardedStep::RollBack(before, Err(e)),
        GuardedEvent::Checked(Ok(next_staged)) => GuardedStep::RunGuardedUpdate(
            GuardedTransaction {
                subject,
                expected_version,
                phase: GuardedPhase::Updating,
                before,
                staged: next_staged,
            },
        ),
        GuardedEvent::Updated(Some(written)) => GuardedStep::Commit(written),
        GuardedEvent::Updated(None) => GuardedStep::ProbeVersion(
            GuardedTransaction {
                subject,
                expected_version,
                phase: GuardedPhase::Probing,
                before,
                staged,
            },
        ),
        GuardedEvent::Probed(current) => {
            let answer = guarded_miss_outcome(subject.as_str(), expected_version, current);
            GuardedStep::RollBack(before, answer)
        },
    }
}

} // verus!
