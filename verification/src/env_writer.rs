//! Writing the store: encoding a name and a fixed-string value for the
//! write call, settling the write against the unconditional handle close,
//! and the round-trip guarantees that tie a write to later reads.

use vstd::prelude::*;

use crate::env_reader::kind_of_raw;
use crate::env_reader::spec_decode_value;
use crate::env_reader::spec_decoded_name;
use crate::env_reader::spec_effective_value;
use crate::env_reader::spec_name_ok;
use crate::env_reader::ValueKind;
use crate::env_reader::REG_SZ_RAW;
use crate::errors::EnvError;
use crate::win_strings::bytes_of_wide;
use crate::win_strings::cut_at_null;
use crate::win_strings::encode_utf16;
use crate::win_strings::lemma_cut_terminated;
use crate::win_strings::lemma_encode_decode;
use crate::win_strings::lemma_wide_bytes_round_trip;
use crate::win_strings::to_wide_null;
use crate::win_strings::wide_to_bytes;

verus! {

/// How long, in milliseconds, the change broadcast may wait on unresponsive
/// listeners before it is abandoned.
pub const BROADCAST_TIMEOUT_MS: u32 = 5000;

/// The bytes a write stores for a value: its UTF-16 encoding, null
/// terminator included, as little-endian byte pairs.
pub open spec fn spec_value_data(value: Seq<char>) -> Seq<u8> {
    bytes_of_wide(encode_utf16(value) + seq![0u16])
}

/// Encodes a value for the write call.
pub fn value_data_bytes(value: &str) -> (b: Vec<u8>)
    ensures
        b@ == spec_value_data(value@),
{
    let wide = to_wide_null(value);
    wide_to_bytes(&wide)
}

/// Settles a write against the handle close that follows it
/// unconditionally. The close happens either way, and a close failure never
/// masks the write's own error; a status of zero is success.
pub fn settle_write(write_code: u32, close_code: u32) -> (r: Result<(), EnvError>)
    ensures
        write_code != 0 ==> r == Err::<(), EnvError>(EnvError::OsCallFailure { code: write_code }),
        write_code == 0 && close_code != 0 ==> r == Err::<(), EnvError>(
            EnvError::OsCallFailure { code: close_code },
        ),
        write_code == 0 && close_code == 0 ==> r is Ok,
{
    if write_code != 0 {
        Err(EnvError::OsCallFailure { code: write_code })
    } else if close_code != 0 {
        Err(EnvError::OsCallFailure { code: close_code })
    } else {
        Ok(())
    }
}

/// Round trip: a value written as a fixed string is read back unchanged by
/// a point lookup, as long as it has no embedded null character, which the
/// null-terminated wire form cannot carry.
pub proof fn lemma_set_get_round_trip(value: Seq<char>)
    requires
        forall|i: int| 0 <= i < value.len() ==> value[i] != '\0',
    ensures
        spec_decode_value(spec_value_data(value)) == value,
        spec_effective_value(spec_value_data(value), REG_SZ_RAW, None) == value,
{
    let w = encode_utf16(value) + seq![0u16];
    lemma_wide_bytes_round_trip(w);
    lemma_cut_terminated(value);
    lemma_encode_decode(value);
}

/// A freshly written entry, as enumeration reports it back, decodes to a
/// record bearing the written name, the written value, and the fixed kind.
pub proof fn lemma_set_then_list(name: Seq<char>, value: Seq<char>)
    requires
        forall|i: int| 0 <= i < name.len() ==> name[i] != '\0',
        forall|i: int| 0 <= i < value.len() ==> value[i] != '\0',
    ensures
        spec_name_ok(encode_utf16(name)),
        spec_decoded_name(encode_utf16(name)) == name,
        spec_name_ok(encode_utf16(name) + seq![0u16]),
        spec_decoded_name(encode_utf16(name) + seq![0u16]) == name,
        spec_decode_value(spec_value_data(value)) == value,
        kind_of_raw(REG_SZ_RAW) == ValueKind::Fixed,
{
    lemma_cut_terminated(name);
    lemma_encode_decode(name);
    lemma_set_get_round_trip(value);
}

} // verus!
