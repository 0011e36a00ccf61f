//! String decoder: locates the null terminator in a fixed-capacity buffer
//! already filled by a raw transfer and decodes the prefix as UTF-8, as
//! UTF-16, or by a heuristic choice between the two. Decoding never
//! returns a partial or lossy result: it either succeeds on the whole
//! terminated prefix or yields nothing.
use crate::values::{u16_units, u16_units_of};
use vstd::prelude::*;

verus! {

/// The decoding mode applied to a raw buffer.
#[derive(Clone, Copy, Debug, Hash, PartialEq, Eq, Structural)]
pub enum StringType {
    UTF8,
    UTF16,
    Auto,
}

/// What strict UTF-8 decoding of a whole byte buffer yields; the std
/// library defines it, this crate only names it.
pub uninterp spec fn utf8_decode(bytes: Seq<u8>) -> Option<Seq<char>>;

/// What strict UTF-16 decoding of a whole unit buffer yields; the std
/// library defines it, this crate only names it.
pub uninterp spec fn utf16_decode(units: Seq<u16>) -> Option<Seq<char>>;

/// The prefix of a buffer up to (and excluding) its first zero byte, or
/// the whole buffer when none terminates it.
pub open spec fn null_prefix_u8(s: Seq<u8>) -> Seq<u8>
    decreases s.len(),
{
    if s.len() == 0 {
        s
    } else if s[0] == 0 {
        Seq::empty()
    } else {
        seq![s[0]] + null_prefix_u8(s.drop_first())
    }
}

/// The prefix of a unit buffer up to (and excluding) its first zero unit,
/// or the whole buffer when none terminates it.
pub open spec fn null_prefix_u16(s: Seq<u16>) -> Seq<u16>
    decreases s.len(),
{
    if s.len() == 0 {
        s
    } else if s[0] == 0 {
        Seq::empty()
    } else {
        seq![s[0]] + null_prefix_u16(s.drop_first())
    }
}

/// An index scanned past only non-zero bytes, stopped at a zero or the
/// buffer's end, marks off exactly the null-terminated prefix.
pub proof fn lemma_null_prefix_u8(s: Seq<u8>, end: int)
    requires
        0 <= end <= s.len(),
        forall|j: int| 0 <= j < end ==> s[j] != 0,
        end < s.len() ==> s[end] == 0,
    ensures
        null_prefix_u8(s) == s.take(end),
    decreases s.len(),
{
    if end == 0 {
        if s.len() == 0 {
            assert(s.take(0) =~= s);
        } else {
            assert(null_prefix_u8(s) =~= s.take(0));
        }
    } else {
        let t = s.drop_first();
        assert forall|j: int| 0 <= j < end - 1 implies t[j] != 0 by {
            assert(t[j] == s[j + 1]);
        }
        lemma_null_prefix_u8(t, end - 1);
        assert(seq![s[0]] + t.take(end - 1) =~= s.take(end));
    }
}

/// The u16 analogue of the terminator-scan lemma.
pub proof fn lemma_null_prefix_u16(s: Seq<u16>, end: int)
    requires
        0 <= end <= s.len(),
        forall|j: int| 0 <= j < end ==> s[j] != 0,
        end < s.len() ==> s[end] == 0,
    ensures
        null_prefix_u16(s) == s.take(end),
    decreases s.len(),
{
    if end == 0 {
        if s.len() == 0 {
            assert(s.take(0) =~= s);
        } else {
            assert(null_prefix_u16(s) =~= s.take(0));
        }
    } else {
        let t = s.drop_first();
        assert forall|j: int| 0 <= j < end - 1 implies t[j] != 0 by {
            assert(t[j] == s[j + 1]);
        }
        lemma_null_prefix_u16(t, end - 1);
        assert(seq![s[0]] + t.take(end - 1) =~= s.take(end));
    }
}

/// UTF-8 mode over a raw buffer: strict decoding of the null-terminated
/// prefix.
pub open spec fn utf8z(s: Seq<u8>) -> Option<Seq<char>> {
    utf8_decode(null_prefix_u8(s))
}

/// UTF-16 mode over a raw unit buffer: strict decoding of the
/// null-terminated prefix.
pub open spec fn utf16z(s: Seq<u16>) -> Option<Seq<char>> {
    utf16_decode(null_prefix_u16(s))
}

/// Relies on String::from_utf8: strict UTF-8 validation and decoding, a
/// function of the bytes alone; absent on any invalid sequence, never
/// partial or lossy.
#[verifier::external_body]
fn decode_utf8(bytes: &[u8]) -> (r: Option<String>)
    ensures
        r is Some <==> utf8_decode(bytes@) is Some,
        r matches Some(s) ==> Option::Some(s@) == utf8_decode(bytes@),
{
    String::from_utf8(bytes.to_vec()).ok()
}

/// Relies on String::from_utf16: strict UTF-16 decoding, a function of the
/// units alone; absent on any unpaired surrogate, never partial or lossy.
#[verifier::external_body]
fn decode_utf16(units: &[u16]) -> (r: Option<String>)
    ensures
        r is Some <==> utf16_decode(units@) is Some,
        r matches Some(s) ==> Option::Some(s@) == utf16_decode(units@),
{
    String::from_utf16(units).ok()
}

/// Decodes a raw byte buffer in UTF-8 mode: the prefix before the first
/// zero byte (or the whole buffer if none) is decoded strictly; invalid
/// UTF-8 yields nothing.
pub fn get_string_utf8(buf: &[u8]) -> (r: Option<String>)
    ensures
        r is Some <==> utf8z(buf@) is Some,
        r matches Some(s) ==> Option::Some(s@) == utf8z(buf@),
{
    let n: usize = buf.len();
    let mut end: usize = 0;
    while end < n && buf[end] != 0
        invariant
            end <= n,
            n == buf@.len(),
            forall|j: int| 0 <= j < end ==> buf@[j] != 0,
        decreases n - end,
    {
        end = end + 1;
    }
    proof {
        lemma_null_prefix_u8(buf@, end as int);
        assert(buf@.subrange(0, end as int) =~= buf@.take(end as int));
    }
    decode_utf8(vstd::slice::slice_subrange(buf, 0, end))
}

/// Decodes a raw unit buffer in UTF-16 mode: the prefix before the first
/// zero unit (or the whole buffer if none) is decoded strictly; an
/// unpaired surrogate yields nothing.
pub fn get_string_utf16(buf: &[u16]) -> (r: Option<String>)
    ensures
        r is Some <==> utf16z(buf@) is Some,
        r matches Some(s) ==> Option::Some(s@) == utf16z(buf@),
{
    let n: usize = buf.len();
    let mut end: usize = 0;
    while end < n && buf[end] != 0
        invariant
            end <= n,
            n == buf@.len(),
            forall|j: int| 0 <= j < end ==> buf@[j] != 0,
        decreases n - end,
    {
        end = end + 1;
    }
    proof {
        lemma_null_prefix_u16(buf@, end as int);
        assert(buf@.subrange(0, end as int) =~= buf@.take(end as int));
    }
    decode_utf16(vstd::slice::slice_subrange(buf, 0, end))
}

/// The heuristic layout test of Auto mode: the 2nd and 4th bytes both
/// zero mark ASCII-range UTF-16 text. It is a tie-break for OS-native wide
/// strings, not a general encoding sniffer: short strings, non-ASCII
/// UTF-16 or binary data can be misclassified, and callers rely on these
/// exact failure modes.
pub open spec fn utf16_layout(s: Seq<u8>) -> bool {
    s.len() >= 4 && s[1] == 0 && s[3] == 0
}

/// Auto mode: a buffer with the UTF-16 byte layout is paired into units
/// and decoded as UTF-16, any other as UTF-8.
pub open spec fn auto_decode(s: Seq<u8>) -> Option<Seq<char>> {
    if utf16_layout(s) {
        utf16z(u16_units_of(s))
    } else {
        utf8z(s)
    }
}

/// When the second and fourth bytes are both zero, Auto mode agrees
/// exactly with UTF-16 mode on the same raw buffer.
pub proof fn lemma_auto_matches_utf16(s: Seq<u8>)
    requires
        s.len() >= 4,
        s[1] == 0,
        s[3] == 0,
    ensures
        auto_decode(s) == utf16z(u16_units_of(s)),
{
}

/// On any other buffer, Auto mode agrees exactly with UTF-8 mode.
pub proof fn lemma_auto_matches_utf8(s: Seq<u8>)
    requires
        !utf16_layout(s),
    ensures
        auto_decode(s) == utf8z(s),
{
}

/// Decodes a raw byte buffer in Auto mode, choosing between UTF-16 and
/// UTF-8 by the heuristic layout test.
pub fn get_string_auto(buf: &[u8]) -> (r: Option<String>)
    ensures
        r is Some <==> auto_decode(buf@) is Some,
        r matches Some(s) ==> Option::Some(s@) == auto_decode(buf@),
{
    if buf.len() >= 4 && buf[1] == 0 && buf[3] == 0 {
        let units: Vec<u16> = u16_units(buf);
        get_string_utf16(units.as_slice())
    } else {
        get_string_utf8(buf)
    }
}

/// What decoding a raw byte buffer yields in each mode.
pub open spec fn string_decode(s: Seq<u8>, string_type: StringType) -> Option<Seq<char>> {
    match string_type {
        StringType::UTF8 => utf8z(s),
        StringType::UTF16 => utf16z(u16_units_of(s)),
        StringType::Auto => auto_decode(s),
    }
}

/// Decodes a raw byte buffer in the selected mode. In UTF-16 mode the
/// bytes are paired into units first; a trailing odd byte belongs to no
/// unit.
pub fn decode_string(buf: &[u8], string_type: StringType) -> (r: Option<String>)
    ensures
        r is Some <==> string_decode(buf@, string_type) is Some,
        r matches Some(s) ==> Option::Some(s@) == string_decode(buf@, string_type),
{
    match string_type {
        StringType::UTF8 => get_string_utf8(buf),
        StringType::UTF16 => {
            let units: Vec<u16> = u16_units(buf);
            get_string_utf16(units.as_slice())
        },
        StringType::Auto => get_string_auto(buf),
    }
}

/// Zero-terminates the unwritten capacity of a name buffer: everything
/// from `written` on is cleared, so stale bytes never leak into a decoded
/// name.
pub fn zero_terminate(buf: &mut Vec<u16>, written: usize)
    ensures
        final(buf)@.len() == old(buf)@.len(),
        forall|j: int|
            0 <= j < final(buf)@.len() ==> final(buf)@[j] == (if j < written {
                old(buf)@[j]
            } else {
                0u16
            }),
{
    let n: usize = buf.len();
    let mut i: usize = written;
    while i < n
        invariant
            written <= i,
            n == buf@.len(),
            buf@.len() == old(buf)@.len(),
            forall|j: int|
                0 <= j < buf@.len() ==> buf@[j] == (if j < written || j >= i {
                    old(buf)@[j]
                } else {
                    0u16
                }),
        decreases n - i,
    {
        buf[i] = 0;
        i = i + 1;
    }
}

} // verus!
