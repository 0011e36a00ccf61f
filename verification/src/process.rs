//! The state kept for one remote address space: the exclusively owned OS
//! handle, released exactly once, and the lazily memoized facts about the
//! target — its pointer bitness and its image name. The OS queries
//! themselves are outside collaborators; their raw results are fed into
//! the resolution steps here, which decide what is cached and what is
//! answered.
use crate::strings::{get_string_utf16, utf16z};
use crate::Address;
use vstd::prelude::*;

verus! {

/// An optional owned string, seen as the optional character sequence it
/// holds.
pub open spec fn view_opt_string(o: Option<String>) -> Option<Seq<char>> {
    match o {
        Option::Some(s) => Option::Some(s@),
        Option::None => Option::None,
    }
}

/// An optional owned unit buffer, seen as the optional sequence it holds.
pub open spec fn view_opt_units(o: Option<Vec<u16>>) -> Option<Seq<u16>> {
    match o {
        Option::Some(u) => Option::Some(u@),
        Option::None => Option::None,
    }
}

/// Memoized-on-first-success: a filled cache answers every later call and
/// the fresh query is ignored; an empty cache takes whatever the fresh
/// query produced, so a failed query leaves nothing cached and the next
/// call retries.
pub open spec fn memo_first<T>(cache: Option<T>, fresh: Option<T>) -> Option<T> {
    if cache is Some {
        cache
    } else {
        fresh
    }
}

/// What recovering a cached wide-string name yields: the cache if filled,
/// else the null-terminated UTF-16 decode of the freshly queried buffer
/// (absent when the query itself failed).
pub open spec fn name_outcome(cache: Option<Seq<char>>, raw: Option<Seq<u16>>) -> Option<
    Seq<char>,
> {
    memo_first(
        cache,
        match raw {
            Option::Some(u) => utf16z(u),
            Option::None => Option::None,
        },
    )
}

/// One remote process: the opaque, exclusively owned capability for its
/// address space, with the facts memoized for the handle's lifetime.
pub struct Process {
    /// The raw OS resource identifier; non-null for the whole lifetime.
    pub handle: Address,
    /// The target's image name, cached on first successful decode and
    /// never invalidated: it cannot change while the target lives.
    pub name: Option<String>,
    /// Whether the target's pointers are 8 bytes wide; resolved once,
    /// immutable afterwards.
    pub is_64_bit: Option<bool>,
    /// Whether the OS resource has already been handed out for release.
    pub released: bool,
}

impl Process {
    /// A live handle is non-null.
    pub open spec fn wf(self) -> bool {
        self.handle != 0
    }

    /// Adopts the result of the OS open call: a null handle means the open
    /// failed and no process exists; anything else starts with every cache
    /// empty and the resource not yet released.
    pub fn from_raw_handle(raw: Address) -> (r: Option<Process>)
        ensures
            r is Some <==> raw != 0,
            r matches Some(p) ==> p == (Process {
                handle: raw,
                name: Option::None,
                is_64_bit: Option::None,
                released: false,
            }),
            r matches Some(p) ==> p.wf(),
    {
        if raw != 0 {
            Option::Some(
                Process { handle: raw, name: Option::None, is_64_bit: Option::None, released: false },
            )
        } else {
            Option::None
        }
    }

    /// The raw handle, for the driver to pass to the OS primitives.
    pub fn raw_handle(&self) -> (r: Address)
        ensures
            r == self.handle,
    {
        self.handle
    }

    /// The bitness already resolved for this handle, if any; an empty
    /// answer means the next resolution must query the OS.
    pub fn is_64_bit_cached(&self) -> (r: Option<bool>)
        ensures
            r == self.is_64_bit,
    {
        self.is_64_bit
    }

    /// One resolution of the target's pointer width. `query` is what the
    /// OS answered when asked this time (absent when the query itself
    /// failed, e.g. access denied). A cache filled by an earlier call
    /// answers by itself; only a first success is ever cached, so a failed
    /// query caches nothing and later calls retry.
    pub fn resolve_bitness(&mut self, query: Option<bool>) -> (r: Option<bool>)
        ensures
            r == memo_first(old(self).is_64_bit, query),
            final(self).is_64_bit == memo_first(old(self).is_64_bit, query),
            final(self).handle == old(self).handle,
            final(self).name == old(self).name,
            final(self).released == old(self).released,
    {
        match self.is_64_bit {
            Option::Some(b) => Option::Some(b),
            Option::None => {
                self.is_64_bit = query;
                query
            },
        }
    }

    /// The name already cached for this handle, if any.
    pub fn cached_name(&self) -> (r: &Option<String>)
        ensures
            r == self.name,
    {
        &self.name
    }

    /// One recovery of the target's image name. `raw` is the wide-string
    /// buffer the OS filled when queried this time (absent when the query
    /// failed). The first successful decode is cached and answers every
    /// later call; a failed query or failed decode caches nothing.
    pub fn get_name(&mut self, raw: Option<Vec<u16>>) -> (r: Option<String>)
        ensures
            view_opt_string(r) == name_outcome(
                view_opt_string(old(self).name),
                view_opt_units(raw),
            ),
            view_opt_string(final(self).name) == view_opt_string(r),
            final(self).handle == old(self).handle,
            final(self).is_64_bit == old(self).is_64_bit,
            final(self).released == old(self).released,
    {
        if self.name.is_some() {
            let n: &String = self.name.as_ref().unwrap();
            Option::Some(n.clone())
        } else {
            match raw {
                Option::Some(units) => {
                    let decoded: Option<String> = get_string_utf16(units.as_slice());
                    match &decoded {
                        Option::Some(s) => {
                            self.name = Option::Some(s.clone());
                        },
                        Option::None => {},
                    }
                    decoded
                },
                Option::None => Option::None,
            }
        }
    }

    /// Releases the handle's OS resource: the raw handle is handed out
    /// exactly once, on the first attempt; every later attempt yields
    /// nothing. The owner passes what it receives to the OS close
    /// primitive, so the resource is closed exactly once.
    pub fn release(&mut self) -> (r: Option<Address>)
        ensures
            r == (if old(self).released {
                Option::None::<Address>
            } else {
                Option::Some(old(self).handle)
            }),
            final(self).released,
            final(self).handle == old(self).handle,
            final(self).name == old(self).name,
            final(self).is_64_bit == old(self).is_64_bit,
    {
        if self.released {
            Option::None
        } else {
            self.released = true;
            Option::Some(self.handle)
        }
    }
}

/// A filled cache answers from memory: the fresh query is ignored. This
/// single-step law is shared by every memoized fact here — the bitness,
/// the names, the module metadata snapshot.
pub proof fn lemma_memo_first_ignores_fresh<T>(cached: T, fresh: Option<T>)
    ensures
        memo_first(Option::Some(cached), fresh) == Option::Some(cached),
{
}

/// The cache left by folding a whole sequence of further queries over an
/// initial cache state.
pub open spec fn memo_after_all<T>(cache: Option<T>, fresh: Seq<Option<T>>) -> Option<T>
    decreases fresh.len(),
{
    if fresh.len() == 0 {
        cache
    } else {
        memo_after_all(memo_first(cache, fresh[0]), fresh.drop_first())
    }
}

/// Once filled, a memoized cache never changes again, however many later
/// queries come and whatever they say.
pub proof fn lemma_memo_stable<T>(cached: T, fresh: Seq<Option<T>>)
    ensures
        memo_after_all(Option::Some(cached), fresh) == Option::Some(cached),
    decreases fresh.len(),
{
    if fresh.len() > 0 {
        lemma_memo_stable(cached, fresh.drop_first());
    }
}

/// Bitness memoization: after the first resolution has produced an
/// answer, every subsequent resolution returns that same answer — the
/// cache never changes again, whatever the later OS queries say, since a
/// live process cannot change its pointer width.
pub proof fn lemma_bitness_memoized(b: bool, queries: Seq<Option<bool>>)
    ensures
        memo_after_all(Option::Some(b), queries) == Option::Some(b),
{
    lemma_memo_stable(b, queries);
}

/// How many of `n` successive release attempts hand the OS resource out.
pub open spec fn release_count(released: bool, n: nat) -> nat
    decreases n,
{
    if n == 0 {
        0
    } else {
        (if released {
            0nat
        } else {
            1nat
        }) + release_count(true, (n - 1) as nat)
    }
}

/// An already-released handle never hands its resource out again.
pub proof fn lemma_release_never_again(n: nat)
    ensures
        release_count(true, n) == 0,
    decreases n,
{
    if n > 0 {
        lemma_release_never_again((n - 1) as nat);
    }
}

/// The OS resource is released exactly once: however many destruction
/// attempts its owner makes, exactly one of them hands the handle out.
pub proof fn lemma_release_exactly_once(n: nat)
    requires
        n >= 1,
    ensures
        release_count(false, n) == 1,
{
    lemma_release_never_again((n - 1) as nat);
}

} // verus!
