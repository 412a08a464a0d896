//! Reading the store: decoding raw registry entries into typed records, the
//! growable-buffer enumeration protocol, and the point-lookup protocol.
//!
//! The operating system calls themselves happen outside the library; they
//! feed raw buffers and status observations in as plain values, and every
//! decision taken on those observations is made here.

use vstd::prelude::*;

use crate::errors::EnvError;
use crate::win_strings::cut_at_null;
use crate::win_strings::decode_units_lossy;
use crate::win_strings::decode_utf16_lossy;
use crate::win_strings::truncate_at_null;
use crate::win_strings::utf16_from_bytes;
use crate::win_strings::utf16_is_well_formed;
use crate::win_strings::wf_utf16;
use crate::win_strings::wide_of_bytes;

verus! {

/// Raw tag of a fixed string value.
pub const REG_SZ_RAW: u32 = 1;

/// Raw tag of an expandable string value.
pub const REG_EXPAND_SZ_RAW: u32 = 2;

/// Default capacity, in code units, of the name buffer handed to the first
/// enumeration attempt for each index.
pub const DEFAULT_NAME_CAPACITY: u32 = 256;

/// Default capacity, in bytes, of the data buffer handed to the first
/// enumeration attempt for each index.
pub const DEFAULT_DATA_CAPACITY: u32 = 1024;

#[derive(Debug, Clone, Copy, PartialEq, Eq, Structural)]
pub enum ValueKind {
    Fixed,
    Expandable,
    Other,
}

/// The kind a raw registry type tag declares.
pub open spec fn kind_of_raw(kind_raw: u32) -> ValueKind {
    if kind_raw == REG_SZ_RAW {
        ValueKind::Fixed
    } else if kind_raw == REG_EXPAND_SZ_RAW {
        ValueKind::Expandable
    } else {
        ValueKind::Other
    }
}

/// One machine environment variable, as decoded from the registry: a
/// snapshot, never synchronised back.
#[derive(Debug, Clone, PartialEq, Eq)]
pub struct EnvironmentVariable {
    pub key: String,
    pub value: String,
    pub value_expanded: Option<String>,
    pub kind: ValueKind,
}

impl EnvironmentVariable {
    /// An expanded value is present only on an expandable record, and only
    /// when expansion produced a non-empty substitution.
    pub open spec fn wf(self) -> bool {
        &&& (self.value_expanded is Some ==> self.kind == ValueKind::Expandable)
        &&& (match self.value_expanded {
            Some(e) => e@.len() > 0,
            None => true,
        })
    }

    /// The effective value: the expanded one when present, the raw one
    /// otherwise.
    pub open spec fn spec_get_value(self) -> Seq<char> {
        match self.value_expanded {
            Some(e) => e@,
            None => self.value@,
        }
    }

    pub fn get_value(&self) -> (v: &str)
        ensures
            v@ == self.spec_get_value(),
    {
        match &self.value_expanded {
            Some(e) => e.as_str(),
            None => self.value.as_str(),
        }
    }
}

/// A decoded entry that still awaits its expansion outcome: everything a raw
/// entry determines by itself.
#[derive(Debug, Clone, PartialEq, Eq)]
pub struct PendingVariable {
    pub key: String,
    pub value: String,
    pub kind: ValueKind,
}

impl PendingVariable {
    pub open spec fn wf(self) -> bool {
        self.kind != ValueKind::Other
    }
}

/// Whether a raw name buffer decodes cleanly: well-formed UTF-16 up to its
/// first null.
pub open spec fn spec_name_ok(name_units: Seq<u16>) -> bool {
    wf_utf16(cut_at_null(name_units))
}

/// The name a raw name buffer holds.
pub open spec fn spec_decoded_name(name_units: Seq<u16>) -> Seq<char> {
    decode_utf16_lossy(cut_at_null(name_units))
}

/// The string a raw value buffer holds: little-endian code units up to the
/// first null, decoded leniently.
pub open spec fn spec_decode_value(data: Seq<u8>) -> Seq<char> {
    decode_utf16_lossy(cut_at_null(wide_of_bytes(data)))
}

/// Decodes one raw registry entry. The name must be clean UTF-16 and the
/// kind a fixed or expandable string; the value decodes leniently.
pub fn decode_entry(name_units: &Vec<u16>, data: &Vec<u8>, kind_raw: u32) -> (r: Result<
    PendingVariable,
    EnvError,
>)
    ensures
        r is Ok <==> (spec_name_ok(name_units@) && kind_of_raw(kind_raw) != ValueKind::Other),
        r matches Ok(p) ==> p.wf() && p.key@ == spec_decoded_name(name_units@) && p.value@
            == spec_decode_value(data@) && p.kind == kind_of_raw(kind_raw),
        !spec_name_ok(name_units@) ==> r == Err::<PendingVariable, EnvError>(
            EnvError::DecodeFailure,
        ),
        spec_name_ok(name_units@) && kind_of_raw(kind_raw) == ValueKind::Other ==> r == Err::<
            PendingVariable,
            EnvError,
        >(EnvError::UnsupportedValueKind { kind_raw }),
{
    let logical_name = truncate_at_null(name_units);
    if !utf16_is_well_formed(&logical_name) {
        return Err(EnvError::DecodeFailure);
    }
    let kind: ValueKind;
    if kind_raw == REG_SZ_RAW {
        kind = ValueKind::Fixed;
    } else if kind_raw == REG_EXPAND_SZ_RAW {
        kind = ValueKind::Expandable;
    } else {
        return Err(EnvError::UnsupportedValueKind { kind_raw });
    }
    let key = decode_units_lossy(&logical_name);
    let value = utf16_from_bytes(data.as_slice());
    Ok(PendingVariable { key, value, kind })
}

/// The expanded-value field a record gets from an expansion outcome: kept
/// only when the substitution came back non-empty.
pub open spec fn spec_expanded_field(expansion: Option<String>) -> Option<String> {
    match expansion {
        Some(e) => if e@.len() > 0 {
            Some(e)
        } else {
            None
        },
        None => None,
    }
}

/// Completes a decoded entry into a record once the expansion outcome is
/// known. An expansion outcome is handed in exactly for expandable entries;
/// a failed expansion arrives as the empty string and leaves the record
/// without an expanded value.
pub fn finish_variable(pending: PendingVariable, expansion: Option<String>) -> (v:
    EnvironmentVariable)
    requires
        pending.wf(),
        (expansion is Some) <==> (pending.kind == ValueKind::Expandable),
    ensures
        v.wf(),
        v.key == pending.key,
        v.value == pending.value,
        v.kind == pending.kind,
        v.value_expanded == spec_expanded_field(expansion),
{
    let value_expanded: Option<String> = match expansion {
        Some(e) => if e.as_str().is_empty() {
            None
        } else {
            Some(e)
        },
        None => None,
    };
    EnvironmentVariable { key: pending.key, value: pending.value, value_expanded, kind: pending.kind }
}

/// The string an expansion call's output buffer holds: everything before
/// its null terminator, decoded leniently. A failed expansion hands in an
/// empty buffer and comes out as the empty string.
pub fn expansion_result(buffer: &Vec<u16>) -> (s: String)
    ensures
        s@ == decode_utf16_lossy(cut_at_null(buffer@)),
{
    let logical = truncate_at_null(buffer);
    decode_units_lossy(&logical)
}

/// The effective value a point lookup returns for stored bytes of the given
/// kind, with the given expansion outcome.
pub open spec fn spec_effective_value(data: Seq<u8>, kind_raw: u32, expansion: Option<
    String,
>) -> Seq<char> {
    match expansion {
        Some(e) => if kind_of_raw(kind_raw) == ValueKind::Expandable && e@.len() > 0 {
            e@
        } else {
            spec_decode_value(data)
        },
        None => spec_decode_value(data),
    }
}

/// The computing half of a point lookup, once the data bytes and their kind
/// have been fetched: decode the value and apply the effective-value rule.
pub fn effective_value(data: &Vec<u8>, kind_raw: u32, expansion: Option<String>) -> (r: Result<
    String,
    EnvError,
>)
    requires
        (expansion is Some) <==> (kind_of_raw(kind_raw) == ValueKind::Expandable),
    ensures
        r is Ok <==> kind_of_raw(kind_raw) != ValueKind::Other,
        kind_of_raw(kind_raw) == ValueKind::Other ==> r == Err::<String, EnvError>(
            EnvError::UnsupportedValueKind { kind_raw },
        ),
        r matches Ok(s) ==> s@ == spec_effective_value(data@, kind_raw, expansion),
{
    let kind: ValueKind;
    if kind_raw == REG_SZ_RAW {
        kind = ValueKind::Fixed;
    } else if kind_raw == REG_EXPAND_SZ_RAW {
        kind = ValueKind::Expandable;
    } else {
        return Err(EnvError::UnsupportedValueKind { kind_raw });
    }
    let value = utf16_from_bytes(data.as_slice());
    let pending = PendingVariable { key: String::new(), value, kind };
    let v = finish_variable(pending, expansion);
    let out = v.get_value().to_owned();
    Ok(out)
}

/// Enumeration/point-lookup consistency: a record decoded from a raw entry
/// carries, as its effective value, exactly what a point lookup computes
/// from the same stored bytes and the same expansion outcome.
pub proof fn lemma_list_get_consistency(
    v: EnvironmentVariable,
    data: Seq<u8>,
    kind_raw: u32,
    expansion: Option<String>,
)
    requires
        kind_of_raw(kind_raw) != ValueKind::Other,
        v.kind == kind_of_raw(kind_raw),
        v.value@ == spec_decode_value(data),
        v.value_expanded == spec_expanded_field(expansion),
        (expansion is Some) <==> (v.kind == ValueKind::Expandable),
    ensures
        v.spec_get_value() == spec_effective_value(data, kind_raw, expansion),
{
}

/// The effective value selects the expansion exactly when the record is
/// expandable and the substitution came back non-empty, and the raw stored
/// value otherwise.
pub proof fn lemma_get_value_selects(v: EnvironmentVariable)
    requires
        v.wf(),
    ensures
        v.value_expanded is Some ==> v.kind == ValueKind::Expandable && v.spec_get_value()
            == v.value_expanded.unwrap()@ && v.value_expanded.unwrap()@.len() > 0,
        v.value_expanded is None ==> v.spec_get_value() == v.value@,
{
}

#[derive(Debug, Clone, Copy, PartialEq, Eq, Structural)]
pub enum Attempt {
    First,
    Retry,
}

/// Where an enumeration stands: which index it asks for next, and whether
/// the coming request is the first try or the one-shot exact-size retry.
#[derive(Debug, Clone, Copy, PartialEq, Eq, Structural)]
pub struct EnumCursor {
    pub index: u32,
    pub attempt: Attempt,
}

/// What one enumeration request came back with, as observed outside.
#[derive(Debug)]
pub enum EnumEvent {
    /// The index is past the last entry.
    NoMoreItems,
    /// The buffers were too small; the exact required sizes, and the status
    /// code that reported them.
    BufferTooSmall { name_len: u32, data_len: u32, code: u32 },
    /// An entry, with its name buffer cut to the reported length, its data
    /// buffer likewise, and its raw kind tag.
    Got { name_units: Vec<u16>, data: Vec<u8>, kind_raw: u32 },
    /// Any other status.
    Failed { code: u32 },
}

/// What the protocol does next.
#[derive(Debug)]
pub enum EnumStep {
    /// Keep the decoded entry and move to the next index, first try, with
    /// default-sized buffers.
    Record { entry: PendingVariable, next: EnumCursor },
    /// Reissue the same index once, with buffers of exactly the given sizes.
    Again { next: EnumCursor, name_capacity: u32, data_capacity: u32 },
    /// The enumeration is complete.
    Finished,
    /// The whole enumeration fails; nothing is kept.
    Abort { error: EnvError },
}

pub fn initial_cursor() -> (c: EnumCursor)
    ensures
        c == (EnumCursor { index: 0, attempt: Attempt::First }),
{
    EnumCursor { index: 0, attempt: Attempt::First }
}

/// One decision of the enumeration protocol. Running past the end finishes
/// cleanly, a too-small buffer earns exactly one exact-size retry, an entry
/// is decoded and aborts the listing if it cannot be, and any failure on
/// the retry is a size-negotiation failure.
pub fn enum_step(cursor: EnumCursor, event: EnumEvent) -> (step: EnumStep)
    requires
        cursor.index < 0xFFFF_FFFFu32,
    ensures
        event is NoMoreItems ==> step is Finished,
        event matches EnumEvent::Got { name_units, data, kind_raw } ==> {
            &&& (step is Record <==> (spec_name_ok(name_units@) && kind_of_raw(kind_raw)
                != ValueKind::Other))
            &&& (step matches EnumStep::Record { entry, next } ==> entry.wf() && entry.key@
                == spec_decoded_name(name_units@) && entry.value@ == spec_decode_value(data@)
                && entry.kind == kind_of_raw(kind_raw) && next == (EnumCursor {
                index: (cursor.index + 1) as u32,
                attempt: Attempt::First,
            }))
            &&& (!spec_name_ok(name_units@) ==> step == (EnumStep::Abort {
                error: EnvError::DecodeFailure,
            }))
            &&& (spec_name_ok(name_units@) && kind_of_raw(kind_raw) == ValueKind::Other ==> step
                == (EnumStep::Abort { error: EnvError::UnsupportedValueKind { kind_raw } }))
        },
        event matches EnumEvent::BufferTooSmall { name_len, data_len, code } ==> (match cursor
            .attempt {
            Attempt::First => step == (EnumStep::Again {
                next: EnumCursor { index: cursor.index, attempt: Attempt::Retry },
                name_capacity: name_len,
                data_capacity: data_len,
            }),
            Attempt::Retry => step == (EnumStep::Abort {
                error: EnvError::SizeNegotiationFailure { code },
            }),
        }),
        event matches EnumEvent::Failed { code } ==> (match cursor.attempt {
            Attempt::First => step == (EnumStep::Abort { error: EnvError::OsCallFailure { code } }),
            Attempt::Retry => step == (EnumStep::Abort {
                error: EnvError::SizeNegotiationFailure { code },
            }),
        }),
{
    match event {
        EnumEvent::NoMoreItems => EnumStep::Finished,
        EnumEvent::Got { name_units, data, kind_raw } => {
            match decode_entry(&name_units, &data, kind_raw) {
                Ok(entry) => EnumStep::Record {
                    entry,
                    next: EnumCursor { index: cursor.index + 1, attempt: Attempt::First },
                },
                Err(error) => EnumStep::Abort { error },
            }
        },
        EnumEvent::BufferTooSmall { name_len, data_len, code } => {
            match cursor.attempt {
                Attempt::First => EnumStep::Again {
                    next: EnumCursor { index: cursor.index, attempt: Attempt::Retry },
                    name_capacity: name_len,
                    data_capacity: data_len,
                },
                Attempt::Retry => EnumStep::Abort {
                    error: EnvError::SizeNegotiationFailure { code },
                },
            }
        },
        EnumEvent::Failed { code } => {
            match cursor.attempt {
                Attempt::First => EnumStep::Abort { error: EnvError::OsCallFailure { code } },
                Attempt::Retry => EnumStep::Abort {
                    error: EnvError::SizeNegotiationFailure { code },
                },
            }
        },
    }
}

/// What one size query of a point lookup came back with.
#[derive(Debug, Clone, Copy, PartialEq, Eq, Structural)]
pub enum QueryEvent {
    /// The name is not set: a normal result, not an error.
    NotFound,
    /// The value exists and needs this many bytes.
    SizeIs { data_len: u32 },
    /// Any other status.
    Failed { code: u32 },
}

/// What a point lookup does after its size query.
#[derive(Debug, Clone, PartialEq, Eq, Structural)]
pub enum QueryStep {
    /// Report absence.
    Absent,
    /// Report the empty string: a zero-length value is a value.
    EmptyValue,
    /// Fetch the data with a buffer of exactly this many bytes.
    Fetch { capacity: u32 },
    /// The lookup fails.
    Abort { error: EnvError },
}

/// The decision a point lookup takes on its size query: absence is a value,
/// a zero-length value is the empty string, any other status is fatal.
pub fn query_size_step(event: QueryEvent) -> (step: QueryStep)
    ensures
        event is NotFound <==> step is Absent,
        event matches QueryEvent::SizeIs { data_len } ==> (if data_len == 0 {
            step == QueryStep::EmptyValue
        } else {
            step == (QueryStep::Fetch { capacity: data_len })
        }),
        event matches QueryEvent::Failed { code } ==> step == (QueryStep::Abort {
            error: EnvError::OsCallFailure { code },
        }),
{
    match event {
        QueryEvent::NotFound => QueryStep::Absent,
        QueryEvent::SizeIs { data_len } => {
            if data_len == 0 {
                QueryStep::EmptyValue
            } else {
                QueryStep::Fetch { capacity: data_len }
            }
        },
        QueryEvent::Failed { code } => QueryStep::Abort {
            error: EnvError::OsCallFailure { code },
        },
    }
}

} // verus!
