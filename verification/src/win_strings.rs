//! UTF-16 wire strings as the registry stores them: little-endian byte pairs,
//! terminated (and truncated) at the first null code unit.

use vstd::prelude::*;
use vstd::string::StrSliceExecFns;

verus! {

/// The code unit stored as the little-endian byte pair `(lo, hi)`.
pub open spec fn unit_of_bytes(lo: u8, hi: u8) -> u16 {
    (lo + hi * 0x100) as u16
}

/// The code units held by a little-endian byte buffer; a trailing odd byte
/// carries no unit and is dropped.
pub open spec fn wide_of_bytes(b: Seq<u8>) -> Seq<u16> {
    Seq::new(b.len() / 2, |i: int| unit_of_bytes(b[2 * i], b[2 * i + 1]))
}

/// The little-endian byte buffer that holds the given code units.
pub open spec fn bytes_of_wide(w: Seq<u16>) -> Seq<u8> {
    Seq::new(
        w.len() * 2,
        |i: int|
            if i % 2 == 0 {
                (w[i / 2] % 0x100) as u8
            } else {
                (w[i / 2] / 0x100) as u8
            },
    )
}

/// Serialising code units to bytes and reading them back is the identity.
pub proof fn lemma_wide_bytes_round_trip(w: Seq<u16>)
    ensures
        wide_of_bytes(bytes_of_wide(w)) == w,
{
    let b = bytes_of_wide(w);
    assert forall|i: int| 0 <= i < w.len() implies wide_of_bytes(b)[i] == w[i] by {
        assert(b[2 * i] == (w[i] % 0x100) as u8);
        assert(b[2 * i + 1] == (w[i] / 0x100) as u8);
    }
    assert(wide_of_bytes(b) =~= w);
}

/// Reads the code units out of a little-endian byte buffer.
pub fn utf16_units_from_bytes(bytes: &[u8]) -> (w: Vec<u16>)
    ensures
        w@ == wide_of_bytes(bytes@),
{
    let len: usize = bytes.len();
    let n: usize = len / 2;
    let mut w: Vec<u16> = Vec::new();
    let mut i: usize = 0;
    while i < n
        invariant
            len == bytes@.len(),
            n == bytes@.len() / 2,
            2 * n <= len,
            i <= n,
            w@ == wide_of_bytes(bytes@).take(i as int),
        decreases n - i,
    {
        let lo = bytes[2 * i];
        let hi = bytes[2 * i + 1];
        let unit: u16 = lo as u16 + hi as u16 * 0x100;
        w.push(unit);
        proof {
            assert(unit == unit_of_bytes(bytes@[2 * i as int], bytes@[2 * i as int + 1]));
            assert(w@ =~= wide_of_bytes(bytes@).take(i as int + 1));
        }
        i = i + 1;
    }
    proof {
        assert(w@ =~= wide_of_bytes(bytes@));
    }
    w
}

/// Writes code units as a little-endian byte buffer.
pub fn wide_to_bytes(w: &Vec<u16>) -> (b: Vec<u8>)
    ensures
        b@ == bytes_of_wide(w@),
{
    let mut b: Vec<u8> = Vec::new();
    let mut i: usize = 0;
    while i < w.len()
        invariant
            i <= w@.len(),
            b@ == bytes_of_wide(w@).take(2 * i as int),
        decreases w@.len() - i,
    {
        let u = w[i];
        b.push((u % 0x100) as u8);
        b.push((u / 0x100) as u8);
        proof {
            assert(bytes_of_wide(w@)[2 * i as int] == (w@[i as int] % 0x100) as u8);
            assert(bytes_of_wide(w@)[2 * i as int + 1] == (w@[i as int] / 0x100) as u8);
            assert(b@ =~= bytes_of_wide(w@).take(2 * (i as int + 1)));
        }
        i = i + 1;
    }
    proof {
        assert(b@ =~= bytes_of_wide(w@));
    }
    b
}

/// Index of the first null code unit, or the length when there is none.
pub open spec fn null_pos(w: Seq<u16>) -> int
    decreases w.len(),
{
    if w.len() == 0 {
        0
    } else if w[0] == 0 {
        0
    } else {
        1 + null_pos(w.drop_first())
    }
}

/// The logical string a stored buffer holds: everything before the first
/// null code unit.
pub open spec fn cut_at_null(w: Seq<u16>) -> Seq<u16> {
    w.take(null_pos(w))
}

/// `null_pos` is pinned down by its characteristic properties.
pub proof fn lemma_null_pos_of(w: Seq<u16>, p: int)
    requires
        0 <= p <= w.len(),
        forall|i: int| 0 <= i < p ==> w[i] != 0,
        p < w.len() ==> w[p] == 0,
    ensures
        null_pos(w) == p,
    decreases w.len(),
{
    if w.len() == 0 {
    } else if w[0] == 0 {
        assert(p == 0);
    } else {
        assert(w[0] != 0);
        assert(p >= 1);
        let d = w.drop_first();
        assert(forall|i: int| 0 <= i < p - 1 ==> d[i] == w[i + 1] && w[i + 1] != 0);
        assert(p - 1 < d.len() ==> d[p - 1] == w[p] && w[p] == 0);
        lemma_null_pos_of(d, p - 1);
    }
}

/// Cuts a unit buffer at its first null, as the stored-string decoding does.
pub fn truncate_at_null(units: &Vec<u16>) -> (r: Vec<u16>)
    ensures
        r@ == cut_at_null(units@),
{
    let mut r: Vec<u16> = Vec::new();
    let mut i: usize = 0;
    while i < units.len() && units[i] != 0
        invariant
            i <= units@.len(),
            forall|j: int| 0 <= j < i ==> units@[j] != 0,
            r@ == units@.take(i as int),
        decreases units@.len() - i,
    {
        r.push(units[i]);
        proof {
            assert(r@ =~= units@.take(i as int + 1));
        }
        i = i + 1;
    }
    proof {
        lemma_null_pos_of(units@, i as int);
    }
    r
}

/// A code unit reserved for the first half of a surrogate pair.
pub open spec fn is_high_surrogate(u: u16) -> bool {
    0xD800 <= u < 0xDC00
}

/// A code unit reserved for the second half of a surrogate pair.
pub open spec fn is_low_surrogate(u: u16) -> bool {
    0xDC00 <= u < 0xE000
}

pub open spec fn is_surrogate(u: u16) -> bool {
    0xD800 <= u < 0xE000
}

/// The UTF-16 encoding of one character: itself for the basic plane, a
/// surrogate pair above it.
pub open spec fn units_of_char(c: char) -> Seq<u16> {
    if (c as u32) < 0x10000 {
        seq![c as u16]
    } else {
        seq![
            (0xD800 + ((c as u32) - 0x10000) / 0x400) as u16,
            (0xDC00 + ((c as u32) - 0x10000) % 0x400) as u16,
        ]
    }
}

/// The UTF-16 encoding of a character sequence.
pub open spec fn encode_utf16(s: Seq<char>) -> Seq<u16>
    decreases s.len(),
{
    if s.len() == 0 {
        seq![]
    } else {
        units_of_char(s[0]) + encode_utf16(s.drop_first())
    }
}

/// How many units the first decoded character consumes: two for a complete
/// surrogate pair, one otherwise.
pub open spec fn first_take(w: Seq<u16>) -> int
    recommends
        w.len() > 0,
{
    if w.len() >= 2 && is_high_surrogate(w[0]) && is_low_surrogate(w[1]) {
        2
    } else {
        1
    }
}

/// The first decoded character: a pair recombines, an unpaired surrogate
/// becomes the replacement character, anything else is itself.
pub open spec fn first_char(w: Seq<u16>) -> char
    recommends
        w.len() > 0,
{
    if first_take(w) == 2 {
        (0x10000 + (w[0] - 0xD800) * 0x400 + (w[1] - 0xDC00)) as u32 as char
    } else if is_surrogate(w[0]) {
        '\u{FFFD}'
    } else {
        w[0] as u32 as char
    }
}

/// The character sequence a unit buffer decodes to, with every unpaired
/// surrogate replaced by the replacement character.
pub open spec fn decode_utf16_lossy(w: Seq<u16>) -> Seq<char>
    decreases w.len(),
{
    if w.len() == 0 {
        seq![]
    } else {
        seq![first_char(w)] + decode_utf16_lossy(w.skip(first_take(w)))
    }
}

/// Whether a unit buffer is well-formed UTF-16: every surrogate stands in a
/// complete high/low pair.
pub open spec fn wf_utf16(w: Seq<u16>) -> bool
    decreases w.len(),
{
    if w.len() == 0 {
        true
    } else if is_surrogate(w[0]) {
        first_take(w) == 2 && wf_utf16(w.skip(2))
    } else {
        wf_utf16(w.skip(1))
    }
}

/// Shape of one character's encoding: plane-0 characters are one non-surrogate
/// unit, the rest a high/low pair; no unit of a non-null character is null.
pub proof fn lemma_units_of_char(c: char)
    ensures
        (c as u32) < 0x10000 ==> units_of_char(c) =~= seq![c as u16] && !is_surrogate(c as u16),
        (c as u32) >= 0x10000 ==> units_of_char(c).len() == 2 && is_high_surrogate(
            units_of_char(c)[0],
        ) && is_low_surrogate(units_of_char(c)[1]),
        c != '\0' ==> forall|i: int| 0 <= i < units_of_char(c).len() ==> units_of_char(c)[i] != 0,
{
    vstd::utf8::char_is_scalar(c);
    let v = c as u32;
    if v >= 0x10000 {
        assert(v <= 0x10FFFF);
        assert((v - 0x10000) / 0x400 <= 0x3FF);
        assert((v - 0x10000) % 0x400 <= 0x3FF);
    } else {
        if c != '\0' {
            vstd::utf8::char_u32_cast(c, v);
            assert(v != 0);
        }
    }
}

/// Decoding picks one encoded character back off the front, whatever follows.
pub proof fn lemma_decode_encode_first(c: char, rest: Seq<u16>)
    ensures
        first_take(units_of_char(c) + rest) == units_of_char(c).len(),
        first_char(units_of_char(c) + rest) == c,
        (units_of_char(c) + rest).skip(units_of_char(c).len() as int) == rest,
{
    vstd::utf8::char_is_scalar(c);
    lemma_units_of_char(c);
    let v = c as u32;
    let w = units_of_char(c) + rest;
    assert(w.skip(units_of_char(c).len() as int) =~= rest);
    if v < 0x10000 {
        assert(w[0] == c as u16);
        assert(!is_surrogate(w[0]));
        assert(first_take(w) == 1);
        assert(c as u16 as u32 == v);
        vstd::utf8::char_u32_cast(c, v);
    } else {
        let q = (v - 0x10000) / 0x400;
        let r = (v - 0x10000) % 0x400;
        assert(q * 0x400 + r == v - 0x10000);
        assert(w[0] == (0xD800 + q) as u16);
        assert(w[1] == (0xDC00 + r) as u16);
        assert(first_take(w) == 2);
        assert(0x10000 + (w[0] - 0xD800) * 0x400 + (w[1] - 0xDC00) == v);
        vstd::utf8::char_u32_cast(c, v);
    }
}

/// An encoded sequence is well-formed UTF-16 and decodes back to itself:
/// the codec round trip.
pub proof fn lemma_encode_decode(s: Seq<char>)
    ensures
        wf_utf16(encode_utf16(s)),
        decode_utf16_lossy(encode_utf16(s)) == s,
    decreases s.len(),
{
    if s.len() > 0 {
        let w = encode_utf16(s);
        let head = units_of_char(s[0]);
        lemma_units_of_char(s[0]);
        lemma_decode_encode_first(s[0], encode_utf16(s.drop_first()));
        lemma_encode_decode(s.drop_first());
        assert(w.skip(head.len() as int) == encode_utf16(s.drop_first()));
        assert(decode_utf16_lossy(w) =~= s);
        if (s[0] as u32) < 0x10000 {
            assert(!is_surrogate(w[0]));
        } else {
            assert(is_surrogate(w[0]) && first_take(w) == 2);
        }
    }
}

/// No unit of the encoding of a null-free sequence is null.
pub proof fn lemma_encode_no_nulls(s: Seq<char>)
    requires
        forall|i: int| 0 <= i < s.len() ==> s[i] != '\0',
    ensures
        forall|i: int| 0 <= i < encode_utf16(s).len() ==> encode_utf16(s)[i] != 0,
    decreases s.len(),
{
    if s.len() > 0 {
        let head = units_of_char(s[0]);
        let tail = encode_utf16(s.drop_first());
        lemma_units_of_char(s[0]);
        lemma_encode_no_nulls(s.drop_first());
        assert(forall|i: int|
            0 <= i < encode_utf16(s).len() ==> encode_utf16(s)[i] == if i < head.len() {
                head[i]
            } else {
                tail[i - head.len()]
            });
    }
}

/// A null terminator appended to a null-free encoding cuts off exactly there.
pub proof fn lemma_cut_terminated(s: Seq<char>)
    requires
        forall|i: int| 0 <= i < s.len() ==> s[i] != '\0',
    ensures
        cut_at_null(encode_utf16(s) + seq![0u16]) == encode_utf16(s),
        cut_at_null(encode_utf16(s)) == encode_utf16(s),
{
    let w = encode_utf16(s);
    lemma_encode_no_nulls(s);
    lemma_null_pos_of(w + seq![0u16], w.len() as int);
    assert((w + seq![0u16]).take(w.len() as int) =~= w);
    lemma_null_pos_of(w, w.len() as int);
    assert(w.take(w.len() as int) =~= w);
}

/// Encoding one character more appends its units.
pub proof fn lemma_encode_push(s: Seq<char>, c: char)
    ensures
        encode_utf16(s.push(c)) == encode_utf16(s) + units_of_char(c),
    decreases s.len(),
{
    if s.len() == 0 {
        let e = s.push(c);
        assert(e[0] == c);
        assert(e.drop_first() =~= s);
        assert(encode_utf16(e) == units_of_char(c) + encode_utf16(e.drop_first()));
        assert(encode_utf16(s) =~= Seq::<u16>::empty());
        assert(encode_utf16(e) =~= encode_utf16(s) + units_of_char(c));
    } else {
        assert(s.push(c)[0] == s[0]);
        assert(s.push(c).drop_first() =~= s.drop_first().push(c));
        lemma_encode_push(s.drop_first(), c);
        assert(encode_utf16(s.push(c)) == units_of_char(s[0]) + encode_utf16(
            s.drop_first().push(c),
        ));
        assert(encode_utf16(s.push(c)) =~= encode_utf16(s) + units_of_char(c));
    }
}

/// Relies on char::from_u32: returns the character with the given code for
/// every Unicode scalar value (below the surrogate block, or between its end
/// and 0x10FFFF), and None for everything else.
#[verifier::external_body]
fn char_from_u32(v: u32) -> (r: Option<char>)
    ensures
        (r is Some) <==> (v < 0xD800 || (0xE000 <= v && v <= 0x10FFFF)),
        r matches Some(c) ==> c as u32 == v,
{
    char::from_u32(v)
}

/// Relies on String::push: appends the given character to the string.
#[verifier::external_body]
fn push_char(s: &mut String, c: char)
    ensures
        final(s)@ == old(s)@ + seq![c],
{
    s.push(c)
}

/// Decodes a unit buffer, substituting the replacement character for every
/// unpaired surrogate.
pub fn decode_units_lossy(units: &Vec<u16>) -> (s: String)
    ensures
        s@ == decode_utf16_lossy(units@),
{
    let mut s = String::new();
    let mut i: usize = 0;
    proof {
        assert(units@.skip(0) =~= units@);
        assert(s@ + decode_utf16_lossy(units@) =~= decode_utf16_lossy(units@));
    }
    while i < units.len()
        invariant
            i <= units@.len(),
            decode_utf16_lossy(units@) == s@ + decode_utf16_lossy(units@.skip(i as int)),
        decreases units@.len() - i,
    {
        let ghost w = units@.skip(i as int);
        let u = units[i];
        let mut step: usize = 1;
        let c: char;
        if 0xD800 <= u && u < 0xDC00 && i + 1 < units.len() && 0xDC00 <= units[i + 1]
            && units[i + 1] < 0xE000 {
            let u2 = units[i + 1];
            let v: u32 = 0x10000 + (u as u32 - 0xD800) * 0x400 + (u2 as u32 - 0xDC00);
            proof {
                assert(first_take(w) == 2);
                assert(w[0] == u && w[1] == u2);
                assert(0x10000 <= v <= 0x10FFFF);
            }
            c = match char_from_u32(v) {
                Some(c0) => c0,
                None => '\u{FFFD}',
            };
            proof {
                vstd::utf8::char_u32_cast(c, v);
                assert(c == first_char(w));
            }
            step = 2;
        } else if 0xD800 <= u && u < 0xE000 {
            c = '\u{FFFD}';
            proof {
                assert(first_take(w) == 1);
                assert(is_surrogate(w[0]));
                assert(c == first_char(w));
            }
        } else {
            proof {
                assert(first_take(w) == 1);
                assert(!is_surrogate(w[0]));
            }
            c = match char_from_u32(u as u32) {
                Some(c0) => c0,
                None => '\u{FFFD}',
            };
            proof {
                vstd::utf8::char_u32_cast(c, u as u32);
                assert(c == first_char(w));
            }
        }
        push_char(&mut s, c);
        proof {
            assert(step as int == first_take(w));
            assert(decode_utf16_lossy(w) == seq![first_char(w)] + decode_utf16_lossy(
                w.skip(first_take(w)),
            ));
            assert(w.skip(step as int) =~= units@.skip(i as int + step as int));
        }
        i = i + step;
    }
    proof {
        assert(units@.skip(i as int) =~= Seq::<u16>::empty());
    }
    s
}

/// Checks that every surrogate in the buffer stands in a complete pair.
pub fn utf16_is_well_formed(units: &Vec<u16>) -> (b: bool)
    ensures
        b == wf_utf16(units@),
{
    let mut i: usize = 0;
    proof {
        assert(units@.skip(0) =~= units@);
    }
    while i < units.len()
        invariant
            i <= units@.len(),
            wf_utf16(units@) == wf_utf16(units@.skip(i as int)),
        decreases units@.len() - i,
    {
        let ghost w = units@.skip(i as int);
        let u = units[i];
        if 0xD800 <= u && u < 0xDC00 {
            if i + 1 < units.len() && 0xDC00 <= units[i + 1] && units[i + 1] < 0xE000 {
                proof {
                    assert(is_surrogate(w[0]) && first_take(w) == 2);
                    assert(w.skip(2) =~= units@.skip(i as int + 2));
                }
                i = i + 2;
            } else {
                proof {
                    assert(is_surrogate(w[0]) && first_take(w) != 2);
                }
                return false;
            }
        } else if 0xDC00 <= u && u < 0xE000 {
            proof {
                assert(is_surrogate(w[0]) && first_take(w) != 2);
            }
            return false;
        } else {
            proof {
                assert(!is_surrogate(w[0]));
                assert(w.skip(1) =~= units@.skip(i as int + 1));
            }
            i = i + 1;
        }
    }
    proof {
        assert(units@.skip(i as int) =~= Seq::<u16>::empty());
    }
    true
}

/// Convert pairs of little-endian bytes to UTF-16 code units, cut at the
/// first null terminator, and decode the rest to a string.
pub fn utf16_from_bytes(bytes: &[u8]) -> (s: String)
    ensures
        s@ == decode_utf16_lossy(cut_at_null(wide_of_bytes(bytes@))),
{
    let units = utf16_units_from_bytes(bytes);
    let logical = truncate_at_null(&units);
    decode_units_lossy(&logical)
}

/// Encodes a string as UTF-16 with a terminating null code unit, the form
/// the registry calls take names and values in.
pub fn to_wide_null(s: &str) -> (w: Vec<u16>)
    ensures
        w@ == encode_utf16(s@) + seq![0u16],
{
    let n = s.unicode_len();
    let mut w: Vec<u16> = Vec::new();
    let mut i: usize = 0;
    while i < n
        invariant
            n == s@.len(),
            i <= n,
            w@ == encode_utf16(s@.take(i as int)),
        decreases n - i,
    {
        let c = s.get_char(i);
        proof {
            vstd::utf8::char_is_scalar(c);
            lemma_units_of_char(c);
            lemma_encode_push(s@.take(i as int), c);
            assert(s@.take(i as int).push(c) =~= s@.take(i as int + 1));
        }
        let v = c as u32;
        if v < 0x10000 {
            w.push(v as u16);
        } else {
            w.push((0xD800 + (v - 0x10000) / 0x400) as u16);
            w.push((0xDC00 + (v - 0x10000) % 0x400) as u16);
        }
        proof {
            assert(w@ =~= encode_utf16(s@.take(i as int + 1)));
        }
        i = i + 1;
    }
    w.push(0);
    proof {
        assert(s@.take(n as int) =~= s@);
        assert(w@ =~= encode_utf16(s@) + seq![0u16]);
    }
    w
}

} // verus!
