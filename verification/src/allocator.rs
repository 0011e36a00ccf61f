//! Memory region allocator: interprets the outcome of the OS page
//! allocation inside the target's address space. The region is an
//! unmanaged resource by design: no outstanding allocation is tracked
//! here, releasing an address never returned by the allocator is out of
//! contract at the OS boundary, and double-free or use-after-free is the
//! caller's responsibility, mirroring the host OS contract.
use crate::Address;
use vstd::prelude::*;

verus! {

/// Interprets the base address the OS page-allocation call returned: zero
/// is the OS failure result and means no region was allocated; any other
/// value is the base of the new committed, executable-and-writable region.
pub fn allocation_result(raw: Address) -> (r: Option<Address>)
    ensures
        r is Some <==> raw != 0,
        r matches Some(a) ==> a == raw,
{
    if raw != 0 {
        Option::Some(raw)
    } else {
        Option::None
    }
}

} // verus!
