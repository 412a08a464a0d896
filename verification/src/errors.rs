//! Failure taxonomy of the store. Absence of a value is not an error: point
//! lookup reports it as `None`. Every failure carries the originating
//! operating-system status code where one exists.

use vstd::prelude::*;

verus! {

#[derive(Debug, Clone, PartialEq, Eq, Structural)]
pub enum EnvError {
    /// The one-shot exact-size retry during enumeration failed too.
    SizeNegotiationFailure { code: u32 },
    /// Decoding met a value kind outside the fixed and expandable strings.
    UnsupportedValueKind { kind_raw: u32 },
    /// A name buffer held malformed UTF-16.
    DecodeFailure,
    /// An open, query, write or close call failed with the given status.
    OsCallFailure { code: u32 },
    /// The elevated relaunch could not be issued or reported an abnormal
    /// result.
    ElevationFailure { code: u32 },
}

} // verus!
