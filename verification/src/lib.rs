//! Cross-process memory access layer: typed value and buffer codecs, a
//! bitness-aware pointer resolver, a pointer-chain walker, string decoding
//! in ambiguous encodings, and the state kept for one remote address space
//! (handle lifetime, memoized metadata).
//!
//! Everything here works on plain values. The operating-system calls that
//! physically transfer bytes across the process boundary, enumerate
//! processes and modules, or allocate pages are outside collaborators: a
//! driver performs them and hands their raw results to the functions of
//! this crate, which interpret them.
use vstd::prelude::*;

pub mod allocator;
pub mod module;
pub mod pointer;
pub mod process;
pub mod strings;
pub mod transfer;
pub mod values;

verus! {

/// A location in the target process's address space: a signed,
/// pointer-width integer for the single 64-bit target memory model this
/// layer assumes. It is never dereferenced locally, only handed to the
/// raw-transfer primitive.
pub type Address = i64;

} // verus!
