//! Typed access: fixed-size values and buffers layered over the raw byte
//! transfer. A transfer result is reinterpreted as a value only on a full,
//! exact-length buffer; a short or over-long transfer never yields a value.
//! All multi-byte values use the target's little-endian layout.
use vstd::prelude::*;

verus! {

/// The value of an exact 2-byte little-endian buffer.
pub open spec fn le2(s: Seq<u8>) -> u16
    recommends
        s.len() == 2,
{
    (s[0] + 0x100 * s[1]) as u16
}

/// The value of an exact 4-byte little-endian buffer.
pub open spec fn le4(s: Seq<u8>) -> u32
    recommends
        s.len() == 4,
{
    (s[0] + 0x100 * s[1] + 0x10000 * s[2] + 0x1000000 * s[3]) as u32
}

/// The value of an exact 8-byte little-endian buffer.
pub open spec fn le8(s: Seq<u8>) -> u64
    recommends
        s.len() == 8,
{
    (s[0] + 0x100 * s[1] + 0x10000 * s[2] + 0x1000000 * s[3] + 0x100000000 * s[4]
        + 0x10000000000 * s[5] + 0x1000000000000 * s[6] + 0x100000000000000 * s[7]) as u64
}

/// The exact byte representation that a u16 write transfers.
pub open spec fn le2_bytes(v: u16) -> Seq<u8> {
    seq![(v % 0x100) as u8, (v / 0x100) as u8]
}

/// The exact byte representation that a u32 write transfers.
pub open spec fn le4_bytes(v: u32) -> Seq<u8> {
    seq![
        (v % 0x100) as u8,
        ((v / 0x100) % 0x100) as u8,
        ((v / 0x10000) % 0x100) as u8,
        (v / 0x1000000) as u8,
    ]
}

/// The exact byte representation that a u64 write transfers.
pub open spec fn le8_bytes(v: u64) -> Seq<u8> {
    seq![
        (v % 0x100) as u8,
        ((v / 0x100) % 0x100) as u8,
        ((v / 0x10000) % 0x100) as u8,
        ((v / 0x1000000) % 0x100) as u8,
        ((v / 0x100000000) % 0x100) as u8,
        ((v / 0x10000000000) % 0x100) as u8,
        ((v / 0x1000000000000) % 0x100) as u8,
        (v / 0x100000000000000) as u8,
    ]
}

/// Reinterprets a transferred buffer as a u8. The value is present exactly
/// when the transfer produced the value's full width.
pub fn u8_from_bytes(bytes: &[u8]) -> (r: Option<u8>)
    ensures
        r is Some <==> bytes@.len() == 1,
        bytes@.len() == 1 ==> r == Some(bytes@[0]),
{
    if bytes.len() == 1 {
        Some(bytes[0])
    } else {
        None
    }
}

/// Reinterprets a transferred buffer as a u16. The value is present exactly
/// when the transfer produced the value's full width.
pub fn u16_from_bytes(bytes: &[u8]) -> (r: Option<u16>)
    ensures
        r is Some <==> bytes@.len() == 2,
        bytes@.len() == 2 ==> r == Some(le2(bytes@)),
{
    if bytes.len() == 2 {
        Some(bytes[0] as u16 + bytes[1] as u16 * 0x100)
    } else {
        None
    }
}

/// Reinterprets a transferred buffer as a u32. The value is present exactly
/// when the transfer produced the value's full width.
pub fn u32_from_bytes(bytes: &[u8]) -> (r: Option<u32>)
    ensures
        r is Some <==> bytes@.len() == 4,
        bytes@.len() == 4 ==> r == Some(le4(bytes@)),
{
    if bytes.len() == 4 {
        Some(
            bytes[0] as u32 + bytes[1] as u32 * 0x100 + bytes[2] as u32 * 0x10000
                + bytes[3] as u32 * 0x1000000,
        )
    } else {
        None
    }
}

/// Reinterprets a transferred buffer as a u64. The value is present exactly
/// when the transfer produced the value's full width.
pub fn u64_from_bytes(bytes: &[u8]) -> (r: Option<u64>)
    ensures
        r is Some <==> bytes@.len() == 8,
        bytes@.len() == 8 ==> r == Some(le8(bytes@)),
{
    if bytes.len() == 8 {
        Some(
            bytes[0] as u64 + bytes[1] as u64 * 0x100 + bytes[2] as u64 * 0x10000
                + bytes[3] as u64 * 0x1000000 + bytes[4] as u64 * 0x100000000
                + bytes[5] as u64 * 0x10000000000 + bytes[6] as u64 * 0x1000000000000
                + bytes[7] as u64 * 0x100000000000000,
        )
    } else {
        None
    }
}

/// Serializes a u16 into the exact bytes its remote write must transfer.
pub fn u16_to_bytes(v: u16) -> (r: Vec<u8>)
    ensures
        r@ == le2_bytes(v),
{
    let mut r: Vec<u8> = Vec::new();
    r.push((v % 0x100) as u8);
    r.push((v / 0x100) as u8);
    proof {
        assert(r@ =~= le2_bytes(v));
    }
    r
}

/// Serializes a u32 into the exact bytes its remote write must transfer.
pub fn u32_to_bytes(v: u32) -> (r: Vec<u8>)
    ensures
        r@ == le4_bytes(v),
{
    let mut r: Vec<u8> = Vec::new();
    r.push((v % 0x100) as u8);
    r.push((v / 0x100 % 0x100) as u8);
    r.push((v / 0x10000 % 0x100) as u8);
    r.push((v / 0x1000000) as u8);
    proof {
        assert(r@ =~= le4_bytes(v));
    }
    r
}

/// Serializes a u64 into the exact bytes its remote write must transfer.
pub fn u64_to_bytes(v: u64) -> (r: Vec<u8>)
    ensures
        r@ == le8_bytes(v),
{
    let mut r: Vec<u8> = Vec::new();
    r.push((v % 0x100) as u8);
    r.push((v / 0x100 % 0x100) as u8);
    r.push((v / 0x10000 % 0x100) as u8);
    r.push((v / 0x1000000 % 0x100) as u8);
    r.push((v / 0x100000000 % 0x100) as u8);
    r.push((v / 0x10000000000 % 0x100) as u8);
    r.push((v / 0x1000000000000 % 0x100) as u8);
    r.push((v / 0x100000000000000) as u8);
    proof {
        assert(r@ =~= le8_bytes(v));
    }
    r
}

/// A 4-byte carrier reinterpreted as a signed value.
pub open spec fn spec_i32_of_u32(v: u32) -> i32 {
    if v > i32::MAX {
        (v - 0x100000000) as i32
    } else {
        v as i32
    }
}

/// A signed value's 4-byte unsigned carrier.
pub open spec fn spec_u32_of_i32(v: i32) -> u32 {
    if v < 0 {
        (v + 0x100000000) as u32
    } else {
        v as u32
    }
}

/// An 8-byte carrier reinterpreted as a signed value.
pub open spec fn spec_i64_of_u64(v: u64) -> i64 {
    if v > i64::MAX {
        (v - 0x10000000000000000) as i64
    } else {
        v as i64
    }
}

/// A signed value's 8-byte unsigned carrier.
pub open spec fn spec_u64_of_i64(v: i64) -> u64 {
    if v < 0 {
        (v + 0x10000000000000000) as u64
    } else {
        v as u64
    }
}

/// Reinterprets a transferred buffer as an i32: the full-width unsigned
/// value, reinterpreted with its sign.
pub fn i32_from_bytes(bytes: &[u8]) -> (r: Option<i32>)
    ensures
        r is Some <==> bytes@.len() == 4,
        bytes@.len() == 4 ==> r == Some(spec_i32_of_u32(le4(bytes@))),
{
    match u32_from_bytes(bytes) {
        Option::Some(v) => {
            if v <= i32::MAX as u32 {
                Option::Some(v as i32)
            } else {
                Option::Some(-((u32::MAX - v) as i32) - 1)
            }
        },
        Option::None => Option::None,
    }
}

/// Reinterprets a transferred buffer as an i64.
pub fn i64_from_bytes(bytes: &[u8]) -> (r: Option<i64>)
    ensures
        r is Some <==> bytes@.len() == 8,
        bytes@.len() == 8 ==> r == Some(spec_i64_of_u64(le8(bytes@))),
{
    match u64_from_bytes(bytes) {
        Option::Some(v) => {
            if v <= i64::MAX as u64 {
                Option::Some(v as i64)
            } else {
                Option::Some(-((u64::MAX - v) as i64) - 1)
            }
        },
        Option::None => Option::None,
    }
}

/// Serializes an i32 into the exact bytes its remote write must transfer.
pub fn i32_to_bytes(v: i32) -> (r: Vec<u8>)
    ensures
        r@ == le4_bytes(spec_u32_of_i32(v)),
{
    let carrier: u32 = if v >= 0 {
        v as u32
    } else {
        (v as i64 + 0x100000000) as u32
    };
    u32_to_bytes(carrier)
}

/// Serializes an i64 into the exact bytes its remote write must transfer.
pub fn i64_to_bytes(v: i64) -> (r: Vec<u8>)
    ensures
        r@ == le8_bytes(spec_u64_of_i64(v)),
{
    let carrier: u64 = if v >= 0 {
        v as u64
    } else {
        u64::MAX - ((-(v + 1)) as u64)
    };
    u64_to_bytes(carrier)
}

/// Round trip: a u16 write that transferred all its bytes is read back as
/// the same value.
pub proof fn lemma_round_trip_u16(v: u16)
    ensures
        le2(le2_bytes(v)) == v,
{
    assert(v % 0x100 + 0x100 * (v / 0x100) == v) by (bit_vector);
}

/// Round trip: a u32 write that transferred all its bytes is read back as
/// the same value.
pub proof fn lemma_round_trip_u32(v: u32)
    ensures
        le4(le4_bytes(v)) == v,
{
    assert(v % 0x100 + 0x100 * (v / 0x100 % 0x100) + 0x10000 * (v / 0x10000 % 0x100) + 0x1000000
        * (v / 0x1000000) == v) by (bit_vector);
}

/// Round trip for signed 4-byte values, through their unsigned carrier.
pub proof fn lemma_round_trip_i32(v: i32)
    ensures
        spec_i32_of_u32(le4(le4_bytes(spec_u32_of_i32(v)))) == v,
{
    lemma_round_trip_u32(spec_u32_of_i32(v));
}

/// Round trip for signed 8-byte values, through their unsigned carrier.
pub proof fn lemma_round_trip_i64(v: i64)
    ensures
        spec_i64_of_u64(le8(le8_bytes(spec_u64_of_i64(v)))) == v,
{
    lemma_round_trip_u64(spec_u64_of_i64(v));
}

/// Round trip: a u64 write that transferred all its bytes is read back as
/// the same value.
pub proof fn lemma_round_trip_u64(v: u64)
    ensures
        le8(le8_bytes(v)) == v,
{
    assert(v % 0x100 + 0x100 * (v / 0x100 % 0x100) + 0x10000 * (v / 0x10000 % 0x100) + 0x1000000
        * (v / 0x1000000 % 0x100) + 0x100000000 * (v / 0x100000000 % 0x100) + 0x10000000000 * (v
        / 0x10000000000 % 0x100) + 0x1000000000000 * (v / 0x1000000000000 % 0x100)
        + 0x100000000000000 * (v / 0x100000000000000) == v) by (bit_vector);
}

/// The u16 units held in a byte buffer, two little-endian bytes per unit.
pub open spec fn u16_units_of(s: Seq<u8>) -> Seq<u16> {
    Seq::new((s.len() / 2) as nat, |i: int| (s[2 * i] + 0x100 * s[2 * i + 1]) as u16)
}

/// Pairs a byte buffer into its u16 units, two little-endian bytes per
/// unit; a trailing odd byte belongs to no unit.
pub fn u16_units(bytes: &[u8]) -> (r: Vec<u16>)
    ensures
        r@ == u16_units_of(bytes@),
{
    let n: usize = bytes.len() / 2;
    let mut r: Vec<u16> = Vec::new();
    let mut i: usize = 0;
    while i < n
        invariant
            i <= n,
            n <= usize::MAX / 2,
            n == bytes@.len() / 2,
            r@.len() == i,
            forall|j: int| 0 <= j < i ==> r@[j] == u16_units_of(bytes@)[j],
        decreases n - i,
    {
        proof {
            assert(bytes@.len() == 2 * (bytes@.len() / 2) + bytes@.len() % 2);
            assert(2 * i + 1 < bytes@.len());
        }
        let unit: u16 = bytes[2 * i] as u16 + bytes[2 * i + 1] as u16 * 0x100;
        r.push(unit);
        i = i + 1;
    }
    proof {
        assert(r@ =~= u16_units_of(bytes@));
    }
    r
}

/// The exact byte representation a whole u16 buffer write transfers: two
/// little-endian bytes per unit.
pub open spec fn u16_units_bytes(u: Seq<u16>) -> Seq<u8> {
    Seq::new(
        u.len() * 2,
        |i: int|
            if i % 2 == 0 {
                (u[i / 2] % 0x100) as u8
            } else {
                (u[i / 2] / 0x100) as u8
            },
    )
}

/// Serializes a whole u16 buffer into the exact bytes its remote write
/// must transfer, two little-endian bytes per unit.
pub fn u16s_to_bytes(units: &[u16]) -> (r: Vec<u8>)
    ensures
        r@ == u16_units_bytes(units@),
{
    let n: usize = units.len();
    let mut r: Vec<u8> = Vec::new();
    let mut i: usize = 0;
    while i < n
        invariant
            i <= n,
            n == units@.len(),
            r@.len() == 2 * i,
            forall|j: int| 0 <= j < 2 * i ==> r@[j] == u16_units_bytes(units@)[j],
        decreases n - i,
    {
        let unit: u16 = units[i];
        r.push((unit % 0x100) as u8);
        r.push((unit / 0x100) as u8);
        proof {
            assert((2 * i as int) / 2 == i as int);
            assert((2 * i as int + 1) / 2 == i as int);
        }
        i = i + 1;
    }
    proof {
        assert(r@ =~= u16_units_bytes(units@));
    }
    r
}

/// Buffer round trip: pairing the exact bytes a whole u16 buffer write
/// produced recovers the original units.
pub proof fn lemma_round_trip_u16_buf(u: Seq<u16>)
    ensures
        u16_units_of(u16_units_bytes(u)) == u,
{
    let b = u16_units_bytes(u);
    assert(b.len() == 2 * u.len());
    assert(b.len() / 2 == u.len());
    assert forall|i: int| 0 <= i < u.len() implies u16_units_of(b)[i] == u[i] by {
        assert((2 * i) / 2 == i);
        assert((2 * i + 1) / 2 == i);
        assert(b[2 * i] == (u[i] % 0x100) as u8);
        assert(b[2 * i + 1] == (u[i] / 0x100) as u8);
        let v = u[i];
        assert(v % 0x100 + 0x100 * (v / 0x100) == v) by (bit_vector);
    }
    assert(u16_units_of(b) =~= u);
}

/// Typed buffer read: a transferred byte range stands for a whole
/// `count`-element u16 buffer only when its length is exactly the element
/// width times the element count; any other transfer fails as a whole.
pub fn u16_buf_from_bytes(bytes: &[u8], count: usize) -> (r: Option<Vec<u16>>)
    ensures
        r is Some <==> bytes@.len() == 2 * count,
        r matches Some(u) ==> u@ == u16_units_of(bytes@) && u@.len() == count,
{
    if bytes.len() % 2 == 0 && bytes.len() / 2 == count {
        Some(u16_units(bytes))
    } else {
        None
    }
}

} // verus!
