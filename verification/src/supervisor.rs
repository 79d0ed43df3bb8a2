//! Decision logic of the remote-process supervisor.
//!
//! The supervisor spawns one sandboxed worker per image, builds a
//! peer-to-peer bus over a socket pair, and races the bus handshake against
//! the caller's cancellation handle and the worker exiting on its own.  The
//! outcome of that race, and the back-off while sealing shared memory, are
//! decided here; performing the kill, the sleep and the seal itself happens
//! outside the library.

use vstd::prelude::*;

use crate::error::Error;

verus! {

/// How long sealing a shared-memory file may keep failing before the host
/// gives up, in milliseconds.
pub const SEAL_GIVE_UP_MILLIS: u64 = 10_000;

/// What the supervisor observed first while the bus handshake was pending.
#[derive(Debug, Clone, PartialEq, Eq)]
pub enum HandshakeEvent {
    /// The peer-to-peer connection completed.
    Connected,
    /// The caller's cancellation handle fired.
    Cancelled,
    /// The worker exited with the given status before the handshake
    /// finished.
    Exited { status: i32 },
    /// Waiting on the worker failed with the rendered I/O error.
    WaitFailed { err: String },
}

/// What the supervisor must do after the handshake race.
#[derive(Debug, PartialEq, Eq)]
pub struct HandshakeDecision {
    /// The worker must be killed: only a cancellation during the handshake
    /// requires it (an exited worker is already gone).
    pub kill_worker: bool,
    /// Proceed with the connection, or the error to report.
    pub outcome: Result<(), Error>,
}

/// Decide the three-way race of the bus handshake: a completed handshake
/// proceeds; a cancellation kills the worker and reports `Cancelled`; a
/// worker exit reports `PrematureExit` with the exit status and the spawned
/// command line.
pub fn handshake_outcome(event: HandshakeEvent, cmd: String) -> (r: HandshakeDecision)
    ensures
        r.kill_worker <==> event == HandshakeEvent::Cancelled,
        r.outcome == (match event {
            HandshakeEvent::Connected => Ok::<(), Error>(()),
            HandshakeEvent::Cancelled => Err::<(), Error>(Error::Cancelled),
            HandshakeEvent::Exited { status } => Err::<(), Error>(
                Error::PrematureExit { status, cmd },
            ),
            HandshakeEvent::WaitFailed { err } => Err::<(), Error>(Error::Io(err)),
        }),
{
    match event {
        HandshakeEvent::Connected => HandshakeDecision { kill_worker: false, outcome: Ok(()) },
        HandshakeEvent::Cancelled => HandshakeDecision {
            kill_worker: true,
            outcome: Err(Error::Cancelled),
        },
        HandshakeEvent::Exited { status } => HandshakeDecision {
            kill_worker: false,
            outcome: Err(Error::PrematureExit { status, cmd }),
        },
        HandshakeEvent::WaitFailed { err } => HandshakeDecision {
            kill_worker: false,
            outcome: Err(Error::Io(err)),
        },
    }
}

/// The result of one attempt to apply the write-disabling seals.
#[derive(Debug, Clone, PartialEq, Eq)]
pub enum SealAttempt {
    /// All four seals are applied; the content is immutable for all holders.
    Sealed,
    /// The attempt failed with the rendered error; sealing fails transiently
    /// while writable mappings remain.
    Failed { err: String },
}

/// What to do after one sealing attempt.
#[derive(Debug, Clone, PartialEq, Eq)]
pub enum SealStep {
    /// Sealing is finished.
    Done,
    /// Wait one millisecond and try again.
    Retry,
    /// Report the failure: it has persisted past the time bound.
    GiveUp { error: Error },
}

/// Decide the sealing back-off: a failure is retried after a short wait
/// until the give-up bound is passed, then reported as a shared-memory
/// error.
pub fn seal_backoff_step(attempt: SealAttempt, elapsed_millis: u64) -> (r: SealStep)
    ensures
        r == (match attempt {
            SealAttempt::Sealed => SealStep::Done,
            SealAttempt::Failed { err } => if elapsed_millis > SEAL_GIVE_UP_MILLIS {
                SealStep::GiveUp { error: Error::MemFd(err) }
            } else {
                SealStep::Retry
            },
        }),
{
    match attempt {
        SealAttempt::Sealed => SealStep::Done,
        SealAttempt::Failed { err } => {
            if elapsed_millis > SEAL_GIVE_UP_MILLIS {
                SealStep::GiveUp { error: Error::MemFd(err) }
            } else {
                SealStep::Retry
            }
        },
    }
}

} // verus!
