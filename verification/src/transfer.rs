//! Raw Transfer, modelled: the remote address space as a partial map from
//! addresses to bytes. A byte range reads back whole exactly when every
//! byte of it is mapped; an exact-length write lays its bytes down in
//! order. The OS primitive that physically performs a transfer is an
//! outside collaborator; this model states what the layered operations
//! assume of it, and the round-trip law is proved against it.
use crate::values::{le2, le2_bytes, le4, le4_bytes, le8, le8_bytes};
use crate::Address;
use vstd::prelude::*;

verus! {

/// A byte range lies inside the target's address space without wrapping.
pub open spec fn region_fits(a: Address, n: nat) -> bool {
    a + n <= i64::MAX + 1
}

/// What a raw read of `n` bytes at `a` returns under the remote memory
/// `m`: the whole range when every byte of it is mapped, nothing
/// otherwise — a short transfer never yields a partial buffer.
pub open spec fn read_region(m: Map<Address, u8>, a: Address, n: nat) -> Option<Seq<u8>>
    recommends
        region_fits(a, n),
{
    if region_fits(a, n) && (forall|i: int|
        0 <= i < n ==> #[trigger] m.dom().contains((a + i) as i64)) {
        Option::Some(Seq::new(n, |i: int| m[(a + i) as i64]))
    } else {
        Option::None
    }
}

/// The remote memory after a raw write of `bytes` at `a`: the written
/// range maps to the new bytes in order, everything else is untouched.
pub open spec fn write_region(m: Map<Address, u8>, a: Address, bytes: Seq<u8>) -> Map<Address, u8>
    recommends
        region_fits(a, bytes.len()),
{
    Map::new(
        |k: Address| m.dom().contains(k) || (a <= k < a + bytes.len()),
        |k: Address|
            if a <= k < a + bytes.len() {
                bytes[k - a]
            } else {
                m[k]
            },
    )
}

/// Raw Transfer round trip: reading back an exactly-written, addressable
/// range yields precisely the written bytes.
pub proof fn lemma_write_read_region(m: Map<Address, u8>, a: Address, bytes: Seq<u8>)
    requires
        region_fits(a, bytes.len()),
    ensures
        read_region(write_region(m, a, bytes), a, bytes.len()) == Option::Some(bytes),
{
    let w = write_region(m, a, bytes);
    assert forall|i: int| 0 <= i < bytes.len() implies #[trigger] w.dom().contains(
        (a + i) as i64,
    ) by {
        assert(a <= (a + i) as i64 && ((a + i) as i64) < a + bytes.len());
    }
    assert(Seq::new(bytes.len(), |i: int| w[(a + i) as i64]) =~= bytes);
}

/// A range with any unmapped byte does not transfer at all: no partial or
/// zero-padded result ever reaches the layered readers.
pub proof fn lemma_unmapped_byte_fails_whole_read(
    m: Map<Address, u8>,
    a: Address,
    n: nat,
    i: int,
)
    requires
        0 <= i < n,
        region_fits(a, n),
        !m.dom().contains((a + i) as i64),
    ensures
        read_region(m, a, n) is None,
{
}

/// Round trip for a typed u16 write against the memory model: a write
/// that transferred all its bytes to a mapped range is read back as the
/// same value.
pub proof fn lemma_memory_round_trip_u16(m: Map<Address, u8>, a: Address, v: u16)
    requires
        region_fits(a, 2),
    ensures
        read_region(write_region(m, a, le2_bytes(v)), a, 2) == Option::Some(le2_bytes(v)),
        le2(le2_bytes(v)) == v,
{
    lemma_write_read_region(m, a, le2_bytes(v));
    crate::values::lemma_round_trip_u16(v);
}

/// Round trip for a typed u32 write against the memory model.
pub proof fn lemma_memory_round_trip_u32(m: Map<Address, u8>, a: Address, v: u32)
    requires
        region_fits(a, 4),
    ensures
        read_region(write_region(m, a, le4_bytes(v)), a, 4) == Option::Some(le4_bytes(v)),
        le4(le4_bytes(v)) == v,
{
    lemma_write_read_region(m, a, le4_bytes(v));
    crate::values::lemma_round_trip_u32(v);
}

/// Round trip for a typed u64 write against the memory model.
pub proof fn lemma_memory_round_trip_u64(m: Map<Address, u8>, a: Address, v: u64)
    requires
        region_fits(a, 8),
    ensures
        read_region(write_region(m, a, le8_bytes(v)), a, 8) == Option::Some(le8_bytes(v)),
        le8(le8_bytes(v)) == v,
{
    lemma_write_read_region(m, a, le8_bytes(v));
    crate::values::lemma_round_trip_u64(v);
}

} // verus!
