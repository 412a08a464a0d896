//! The privilege-elevation gate: classifying the process token fail-closed,
//! and judging the outcome of an elevated relaunch request.
//!
//! Opening and querying the token, and issuing the relaunch, are operating
//! system actions taken outside the library; what they observed comes in as
//! plain values and every decision on them is made here.

use vstd::prelude::*;

use crate::errors::EnvError;

verus! {

/// An elevated relaunch request reports success through an instance value
/// strictly above this threshold.
pub const RELAUNCH_SUCCESS_THRESHOLD: usize = 32;

/// What one inspection of the current process token observed.
#[derive(Debug, Clone, Copy, PartialEq, Eq, Structural)]
pub enum TokenQuery {
    /// The process token could not be opened.
    OpenFailed,
    /// The token opened but its elevation information could not be read.
    QueryFailed,
    /// The token's elevation flag, non-zero when elevated.
    Elevation { flag: u32 },
}

/// Whether a token observation counts as elevated: only a readable,
/// non-zero elevation flag does; every failure to inspect counts as not
/// elevated, never the other way round.
pub open spec fn spec_elevated(observation: TokenQuery) -> bool {
    match observation {
        TokenQuery::Elevation { flag } => flag != 0,
        _ => false,
    }
}

/// Classifies a token observation, fail-closed.
pub fn elevation_of_token(observation: TokenQuery) -> (elevated: bool)
    ensures
        elevated == spec_elevated(observation),
{
    match observation {
        TokenQuery::Elevation { flag } => flag != 0,
        _ => false,
    }
}

/// The privilege check is a function of the observed token state alone:
/// repeated inspections within one unchanged process run observe the same
/// state, so they are answered with the same boolean.
pub proof fn lemma_elevation_stable(first: TokenQuery, second: TokenQuery)
    requires
        first == second,
    ensures
        spec_elevated(first) == spec_elevated(second),
{
}

/// What became of a request to relaunch the process elevated.
#[derive(Debug, Clone, Copy, PartialEq, Eq, Structural)]
pub enum RelaunchEvent {
    /// The request was issued and the launcher reported this instance value.
    Issued { instance: usize },
    /// The request itself could not be issued; the underlying status code.
    NotIssued { code: u32 },
}

/// What the caller must do after a relaunch request.
#[derive(Debug, Clone, PartialEq, Eq, Structural)]
pub enum RelaunchVerdict {
    /// The elevated process is on its way: terminate this one now; nothing
    /// meaningful may run after this verdict.
    ExitProcess,
    /// The relaunch failed; the run aborts with this error.
    Failed { error: EnvError },
}

/// Judges a relaunch outcome: an instance value above the success threshold
/// means the elevated process started and this one must exit; anything else
/// is a fatal elevation failure carrying what was reported.
pub fn relaunch_verdict(event: RelaunchEvent) -> (verdict: RelaunchVerdict)
    ensures
        verdict is ExitProcess <==> (event matches RelaunchEvent::Issued { instance } && instance
            > RELAUNCH_SUCCESS_THRESHOLD),
        event matches RelaunchEvent::Issued { instance } ==> (instance
            <= RELAUNCH_SUCCESS_THRESHOLD ==> verdict == (RelaunchVerdict::Failed {
            error: EnvError::ElevationFailure { code: instance as u32 },
        })),
        event matches RelaunchEvent::NotIssued { code } ==> verdict == (RelaunchVerdict::Failed {
            error: EnvError::ElevationFailure { code },
        }),
{
    match event {
        RelaunchEvent::Issued { instance } => {
            if instance > RELAUNCH_SUCCESS_THRESHOLD {
                RelaunchVerdict::ExitProcess
            } else {
                RelaunchVerdict::Failed {
                    error: EnvError::ElevationFailure { code: instance as u32 },
                }
            }
        },
        RelaunchEvent::NotIssued { code } => RelaunchVerdict::Failed {
            error: EnvError::ElevationFailure { code },
        },
    }
}

} // verus!
