//! Pointer resolver: widens a 4- or 8-byte transfer into an `Address`
//! according to the target's resolved bitness, and walks multi-offset
//! pointer chains. A chain adds every offset to the previously dereferenced
//! address; all offsets but the last are followed by another dereference,
//! while the last one only shifts the final address (the final-member
//! convention of structure field access). Any failed intermediate read
//! aborts the whole chain.
use crate::transfer::read_region;
use crate::values::{i64_from_bytes, le4, le8, spec_i64_of_u64, u32_from_bytes};
use crate::Address;
use vstd::prelude::*;

verus! {

/// How many bytes one pointer occupies in the target, by its bitness.
pub open spec fn spec_pointer_width(is_64: bool) -> usize {
    if is_64 {
        8usize
    } else {
        4usize
    }
}

/// The byte width of the target's pointers: 8 when its pointer model is
/// 64-bit, 4 when it is the emulated narrower one.
pub fn pointer_width(is_64: bool) -> (r: usize)
    ensures
        r == spec_pointer_width(is_64),
{
    if is_64 {
        8
    } else {
        4
    }
}

/// An 8-byte target pointer reinterpreted as a signed address.
pub open spec fn spec_addr_from_u64(v: u64) -> Address {
    spec_i64_of_u64(v)
}

/// The address a pointer-sized transfer denotes: absent bitness propagates
/// as an absent pointer, a transfer of the wrong width yields nothing, a
/// 4-byte pointer widens without sign, an 8-byte one is reinterpreted.
pub open spec fn spec_pointer_from_bytes(is_64: Option<bool>, s: Seq<u8>) -> Option<Address> {
    match is_64 {
        Option::None => Option::None,
        Option::Some(true) => if s.len() == 8 {
            Option::Some(spec_addr_from_u64(le8(s)))
        } else {
            Option::None
        },
        Option::Some(false) => if s.len() == 4 {
            Option::Some(le4(s) as i64)
        } else {
            Option::None
        },
    }
}

/// Widens a pointer-sized transfer into an `Address`, per the resolved
/// bitness. No default width is ever assumed: unresolved bitness means no
/// pointer, and so does a transfer that is not exactly the pointer's width.
pub fn pointer_from_bytes(is_64: Option<bool>, bytes: &[u8]) -> (r: Option<Address>)
    ensures
        r == spec_pointer_from_bytes(is_64, bytes@),
{
    match is_64 {
        Option::None => Option::None,
        Option::Some(true) => i64_from_bytes(bytes),
        Option::Some(false) => {
            match u32_from_bytes(bytes) {
                Option::Some(v) => Option::Some(v as i64),
                Option::None => Option::None,
            }
        },
    }
}

/// A short (or over-long) pointer transfer never resolves to an address,
/// whatever the bitness says.
pub proof fn lemma_short_transfer_no_pointer(is_64: Option<bool>, s: Seq<u8>)
    requires
        s.len() != 4,
        s.len() != 8,
    ensures
        spec_pointer_from_bytes(is_64, s) is None,
{
}

/// One pointer read over the byte-level remote memory: the pointer-width
/// range at `a` transferred whole and widened per the resolved bitness.
pub open spec fn spec_pointer_read(m: Map<Address, u8>, is_64: Option<bool>, a: Address) -> Option<
    Address,
> {
    match is_64 {
        Option::None => Option::None,
        Option::Some(b) => match read_region(m, a, spec_pointer_width(b) as nat) {
            Option::Some(bytes) => spec_pointer_from_bytes(is_64, bytes),
            Option::None => Option::None,
        },
    }
}

/// The pointer-level view of a byte-level memory under resolved bitness:
/// the partial map a chain walk dereferences through.
pub open spec fn pointer_view(m: Map<Address, u8>, is_64: bool) -> Map<Address, Address> {
    Map::new(
        |a: Address| spec_pointer_read(m, Option::Some(is_64), a) is Some,
        |a: Address| spec_pointer_read(m, Option::Some(is_64), a)->0,
    )
}

/// Dereferencing through the pointer view is exactly one pointer-width
/// read of the byte-level memory: the chain walker and the typed reader
/// agree at every address.
pub proof fn lemma_pointer_view_lookup(m: Map<Address, u8>, is_64: bool, a: Address)
    ensures
        ptr_lookup(pointer_view(m, is_64), a) == spec_pointer_read(m, Option::Some(is_64), a),
{
}

/// Offset arithmetic on target addresses: wrapping, as pointer arithmetic
/// in the target's fixed-width address space is.
pub open spec fn spec_offset_add(a: Address, o: u32) -> Address {
    if a + o > i64::MAX {
        (a + o - 0x10000000000000000) as i64
    } else {
        (a + o) as i64
    }
}

/// Adds a chain offset to an address, wrapping around the target's
/// fixed-width address space.
pub fn offset_add(a: Address, o: u32) -> (r: Address)
    ensures
        r == spec_offset_add(a, o),
{
    a.wrapping_add_unsigned(o as u64)
}

/// One remote pointer read, abstracted: the partial map from addresses to
/// the pointer values stored there. An address outside the map's domain is
/// one whose dereference fails (unmapped, protected, or inaccessible).
pub open spec fn ptr_lookup(mem: Map<Address, Address>, a: Address) -> Option<Address> {
    if mem.dom().contains(a) {
        Option::Some(mem[a])
    } else {
        Option::None
    }
}

/// What a whole pointer chain resolves to under the remote memory `mem`:
/// dereference `a`; with no offsets that pointer is the result; otherwise
/// add each offset in turn, dereferencing after every one but the last.
pub open spec fn chain_spec(mem: Map<Address, Address>, a: Address, offsets: Seq<u32>) -> Option<
    Address,
>
    decreases offsets.len(),
{
    match ptr_lookup(mem, a) {
        Option::None => Option::None,
        Option::Some(p) => if offsets.len() == 0 {
            Option::Some(p)
        } else if offsets.len() == 1 {
            Option::Some(spec_offset_add(p, offsets[0]))
        } else {
            chain_spec(mem, spec_offset_add(p, offsets[0]), offsets.drop_first())
        },
    }
}

/// An empty offset path degenerates to a single pointer read with no
/// offset addition.
pub proof fn lemma_chain_empty(mem: Map<Address, Address>, a: Address)
    ensures
        chain_spec(mem, a, Seq::<u32>::empty()) == ptr_lookup(mem, a),
{
}

/// A single offset is added to the one dereferenced pointer and is not
/// itself dereferenced.
pub proof fn lemma_chain_single(mem: Map<Address, Address>, a: Address, o: u32)
    ensures
        chain_spec(mem, a, seq![o]) == (match ptr_lookup(mem, a) {
            Option::Some(p) => Option::Some(spec_offset_add(p, o)),
            Option::None => Option::None,
        }),
{
}

/// Two offsets: dereference at `a`, add the first and dereference again,
/// then add the second without a final dereference.
pub proof fn lemma_chain_pair(mem: Map<Address, Address>, a: Address, o1: u32, o2: u32)
    ensures
        chain_spec(mem, a, seq![o1, o2]) == (match ptr_lookup(mem, a) {
            Option::Some(p) => match ptr_lookup(mem, spec_offset_add(p, o1)) {
                Option::Some(q) => Option::Some(spec_offset_add(q, o2)),
                Option::None => Option::None,
            },
            Option::None => Option::None,
        }),
{
    let s = seq![o1, o2];
    assert(s.drop_first() =~= seq![o2]);
    match ptr_lookup(mem, a) {
        Option::Some(p) => {
            assert(s[0] == o1);
            assert(chain_spec(mem, a, s) == chain_spec(mem, spec_offset_add(p, o1), seq![o2]));
        },
        Option::None => {},
    }
}

/// Any failed intermediate dereference aborts the whole chain: there is no
/// partial-chain result.
pub proof fn lemma_chain_failed_read(mem: Map<Address, Address>, a: Address, offsets: Seq<u32>)
    requires
        ptr_lookup(mem, a) is None,
    ensures
        chain_spec(mem, a, offsets) is None,
{
}

/// Where a chain walk stands: waiting for one more dereference, finished
/// with a resolved address, or aborted by a failed read.
#[derive(Clone, Copy, Debug, PartialEq, Eq, Structural)]
pub enum ChainStatus {
    Pending(Address),
    Done(Address),
    Failed,
}

/// A pointer-chain walk in progress. The walker owns every decision of the
/// resolution — which address to dereference next, how each offset is
/// applied, when the walk is over; its driver only performs the raw
/// pointer reads the walker asks for and feeds their results back.
pub struct PointerChain {
    /// The offset path being walked.
    pub offsets: Vec<u32>,
    /// How many offsets have been applied so far.
    pub idx: usize,
    /// Where the walk stands.
    pub status: ChainStatus,
}

impl PointerChain {
    /// The walk never applies more offsets than it has, and a pending walk
    /// always has its next offset (or an empty path) ahead of it.
    pub open spec fn wf(self) -> bool {
        &&& self.offsets@.len() <= usize::MAX
        &&& self.idx <= self.offsets@.len()
        &&& (self.status is Pending ==> (if self.offsets@.len() == 0 {
            self.idx == 0
        } else {
            self.idx < self.offsets@.len()
        }))
    }

    /// The address whose dereference the walk is waiting for.
    pub open spec fn pending_at(self) -> Address
        recommends
            self.status is Pending,
    {
        match self.status {
            ChainStatus::Pending(a) => a,
            ChainStatus::Done(a) => a,
            ChainStatus::Failed => 0,
        }
    }

    /// What the walk will resolve to under the remote memory `mem`: the
    /// already-fixed outcome once finished, the rest of the chain while
    /// pending.
    pub open spec fn chain_under(self, mem: Map<Address, Address>) -> Option<Address> {
        match self.status {
            ChainStatus::Failed => Option::None,
            ChainStatus::Done(r) => Option::Some(r),
            ChainStatus::Pending(at) => chain_spec(mem, at, self.offsets@.skip(self.idx as int)),
        }
    }

    /// The exact transition one fed read result causes.
    pub open spec fn spec_advance(self, read: Option<Address>) -> PointerChain {
        match (self.status, read) {
            (ChainStatus::Pending(_), Option::None) => PointerChain {
                status: ChainStatus::Failed,
                ..self
            },
            (ChainStatus::Pending(_), Option::Some(p)) => if self.offsets@.len() == 0 {
                PointerChain { status: ChainStatus::Done(p), ..self }
            } else if self.idx + 1 == self.offsets@.len() {
                PointerChain {
                    status: ChainStatus::Done(
                        spec_offset_add(p, self.offsets@[self.idx as int]),
                    ),
                    ..self
                }
            } else {
                PointerChain {
                    idx: (self.idx + 1) as usize,
                    status: ChainStatus::Pending(
                        spec_offset_add(p, self.offsets@[self.idx as int]),
                    ),
                    ..self
                }
            },
            _ => self,
        }
    }

    /// Starts resolving the offset path rooted at `address`: the first
    /// thing a chain does is dereference its root.
    pub fn begin(address: Address, offsets: Vec<u32>) -> (r: PointerChain)
        ensures
            r.wf(),
            r.offsets@ == offsets@,
            r.idx == 0,
            r.status == ChainStatus::Pending(address),
    {
        let _n: usize = offsets.len();
        PointerChain { offsets, idx: 0, status: ChainStatus::Pending(address) }
    }

    /// The address the driver must dereference next, or nothing once the
    /// walk has finished or failed.
    pub fn pending_read(&self) -> (r: Option<Address>)
        ensures
            r == (match self.status {
                ChainStatus::Pending(a) => Option::Some(a),
                ChainStatus::Done(_) => Option::None::<Address>,
                ChainStatus::Failed => Option::None::<Address>,
            }),
    {
        match self.status {
            ChainStatus::Pending(a) => Option::Some(a),
            ChainStatus::Done(_) => Option::None,
            ChainStatus::Failed => Option::None,
        }
    }

    /// Feeds the walk the result of the dereference it asked for. A failed
    /// read aborts the whole walk; a pointer value either finishes it (last
    /// offset, added but not dereferenced; or the empty path) or moves it
    /// to the next dereference.
    pub fn advance(&mut self, read: Option<Address>)
        requires
            old(self).wf(),
            old(self).status is Pending,
        ensures
            *final(self) == old(self).spec_advance(read),
            final(self).wf(),
    {
        match read {
            Option::None => {
                self.status = ChainStatus::Failed;
            },
            Option::Some(p) => {
                let n: usize = self.offsets.len();
                if n == 0 {
                    self.status = ChainStatus::Done(p);
                } else if self.idx + 1 == n {
                    let o: u32 = self.offsets[self.idx];
                    self.status = ChainStatus::Done(offset_add(p, o));
                } else {
                    let o: u32 = self.offsets[self.idx];
                    self.idx = self.idx + 1;
                    self.status = ChainStatus::Pending(offset_add(p, o));
                }
            },
        }
    }

    /// The resolved final address, once the walk is done.
    pub fn result(&self) -> (r: Option<Address>)
        ensures
            r == (match self.status {
                ChainStatus::Done(a) => Option::Some(a),
                ChainStatus::Pending(_) => Option::None::<Address>,
                ChainStatus::Failed => Option::None::<Address>,
            }),
    {
        match self.status {
            ChainStatus::Done(a) => Option::Some(a),
            ChainStatus::Pending(_) => Option::None,
            ChainStatus::Failed => Option::None,
        }
    }
}

/// A freshly started walk stands for the whole chain rooted at its start
/// address.
pub proof fn lemma_begin_chain(c: PointerChain, mem: Map<Address, Address>)
    requires
        c.idx == 0,
        c.status is Pending,
    ensures
        c.chain_under(mem) == chain_spec(mem, c.pending_at(), c.offsets@),
{
    assert(c.offsets@.skip(0) =~= c.offsets@);
}

/// One walker step preserves the chain's value: when the fed result is
/// exactly what dereferencing the pending address under `mem` gives, the
/// advanced walk still stands for the same final address. A walk driven to
/// completion on reads drawn from `mem` therefore resolves the chain
/// `chain_spec` describes.
pub proof fn lemma_advance_preserves_chain(
    c: PointerChain,
    read: Option<Address>,
    mem: Map<Address, Address>,
)
    requires
        c.wf(),
        c.status is Pending,
        read == ptr_lookup(mem, c.pending_at()),
    ensures
        c.spec_advance(read).wf(),
        c.spec_advance(read).chain_under(mem) == c.chain_under(mem),
{
    let s = c.offsets@.skip(c.idx as int);
    match read {
        Option::None => {},
        Option::Some(p) => {
            if c.offsets@.len() == 0 {
                assert(s =~= Seq::<u32>::empty());
            } else if c.idx + 1 == c.offsets@.len() {
                assert(s.len() == 1);
                assert(s[0] == c.offsets@[c.idx as int]);
            } else {
                assert(s[0] == c.offsets@[c.idx as int]);
                assert(s.drop_first() =~= c.offsets@.skip(c.idx as int + 1));
            }
        },
    }
}

/// The walk after up to `fuel` steps, each fed the dereference of its
/// pending address under `mem`.
pub open spec fn spec_walk(c: PointerChain, mem: Map<Address, Address>, fuel: nat) -> PointerChain
    decreases fuel,
{
    if fuel == 0 || !(c.status is Pending) {
        c
    } else {
        spec_walk(c.spec_advance(ptr_lookup(mem, c.pending_at())), mem, (fuel - 1) as nat)
    }
}

/// Driven on reads drawn from `mem`, a walk stops within one step more
/// than it has offsets left, and still stands for the chain it was started
/// on: together with `lemma_begin_chain`, a completed walk's result is
/// exactly `chain_spec` of its root address and offset path.
pub proof fn lemma_walk_resolves_chain(c: PointerChain, mem: Map<Address, Address>, fuel: nat)
    requires
        c.wf(),
    ensures
        spec_walk(c, mem, fuel).wf(),
        spec_walk(c, mem, fuel).chain_under(mem) == c.chain_under(mem),
        fuel > c.offsets@.len() - c.idx ==> !(spec_walk(c, mem, fuel).status is Pending),
    decreases fuel,
{
    if fuel > 0 && c.status is Pending {
        let read = ptr_lookup(mem, c.pending_at());
        lemma_advance_preserves_chain(c, read, mem);
        lemma_walk_resolves_chain(c.spec_advance(read), mem, (fuel - 1) as nat);
    }
}

} // verus!
