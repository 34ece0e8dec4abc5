//! Finding the agent's registration entry point in the running process.
//!
//! The agent exports a function under a fixed name when it has been loaded
//! into the process. The lookup is made once; its outcome, present or absent,
//! is kept for the life of the process.

use crate::name::is_c_name;
use crate::once::settled_handle;
use once_cell::sync::OnceCell;
use std::sync::atomic::AtomicUsize;
use vstd::prelude::*;
use vstd::string::is_ascii;
use vstd::string::is_ascii_spec_bytes;
use vstd::string::StringSliceAdditionalSpecFns;

verus! {

/// The outcome of looking for the agent. Before the first lookup the locator
/// holds none of the two.
#[derive(Clone, Copy, Debug, PartialEq, Eq, Structural)]
pub enum BackendHandle {
    /// No agent is in the process: every counter stays silent.
    Absent,
    /// The agent is in the process, with its entry point at this address.
    Present(usize),
}

/// What a symbol lookup that came back with `found` means: the null address
/// says that the symbol is not there, any other is the entry point.
pub open spec fn spec_resolved(found: usize) -> BackendHandle {
    if found == 0 {
        BackendHandle::Absent
    } else {
        BackendHandle::Present(found)
    }
}

/// Reads the address that a symbol lookup came back with.
pub fn resolved(found: usize) -> (h: BackendHandle)
    ensures
        h == spec_resolved(found),
{
    if found == 0 {
        BackendHandle::Absent
    } else {
        BackendHandle::Present(found)
    }
}

/// The name under which the agent exports its entry point, closed by a nul.
pub fn entry_point_symbol() -> (s: &'static str)
    ensures
        s@ == "_coz_get_counter\0"@,
        is_c_name(s.spec_bytes()),
{
    let s = "_coz_get_counter\0";
    proof {
        broadcast use is_ascii_spec_bytes;

        reveal_strlit("_coz_get_counter\0");
        assert(is_ascii(s));
        assert(s.spec_bytes().len() == 17);
    }
    s
}

/// Caches the outcome of the lookup that it was built with. As a locator
/// owns its lookup from the start, the lookup cannot reach the locator that
/// runs it.
pub struct Locator<L> {
    cell: OnceCell<BackendHandle>,
    lookup: L,
}

impl<L: Fn() -> usize> Locator<L> {
    /// The lookup that this locator makes.
    pub closed spec fn spec_lookup(&self) -> L {
        self.lookup
    }

    /// The outcome that this locator settles on: the one that every call of
    /// `resolve` on it hands back.
    pub closed spec fn settled(&self) -> BackendHandle {
        settled_handle(self.cell)
    }

    /// The locator's lookup can be made.
    pub open spec fn wf(&self) -> bool {
        call_requires(self.spec_lookup(), ())
    }

    /// `h` is what the locator's lookup came out as: absent if it found the
    /// null address, else present at the address it found.
    pub open spec fn found(&self, h: BackendHandle) -> bool {
        exists|at: usize| #[trigger]
            call_ensures(self.spec_lookup(), (), at) && h == spec_resolved(at)
    }

    /// A locator that has not looked yet.
    pub fn new(lookup: L) -> (l: Self)
        requires
            call_requires(lookup, ()),
        ensures
            l.spec_lookup() == lookup,
            l.wf(),
    {
        Locator { cell: OnceCell::new(), lookup }
    }

    /// Makes the lookup and reads its outcome.
    pub fn locate(lookup: &L) -> (h: BackendHandle)
        requires
            call_requires(*lookup, ()),
        ensures
            exists|at: usize| #[trigger]
                call_ensures(*lookup, (), at) && h == spec_resolved(at),
    {
        let found: usize = lookup();
        resolved(found)
    }

    /// `OnceCell::get_or_init` on the locator's cell, with `locate` on the
    /// locator's own lookup as the initialiser: hands back a copy of what
    /// the cell holds, after filling it if it was empty. Of all the
    /// initialisers that race for an empty cell exactly one is run; the
    /// others wait for its value. The result is the value the cell settles
    /// on. The cell is private and filled nowhere else, so that value is
    /// what `locate` made of this lookup.
    #[verifier::external_body]
    fn cached(&self) -> (held: BackendHandle)
        requires
            self.wf(),
        ensures
            held == settled_handle(self.cell),
            self.found(held),
    {
        *self.cell.get_or_init(|| Self::locate(&self.lookup))
    }

    /// The outcome of the lookup, which is made if none was made through
    /// this locator before. The result is the outcome the locator settles
    /// on, the same on every call, and it is what the locator's lookup came
    /// out as.
    pub fn resolve(&self) -> (h: BackendHandle)
        requires
            self.wf(),
        ensures
            h == self.settled(),
            self.found(h),
    {
        self.cached()
    }
}

/// What registering the counter of this kind and name has given when the
/// lookup had come out as `handle`.
///
/// Without an agent there is no counter. With the agent at some address,
/// `guard` has run, and `call` has been asked at that address for the counter
/// of this kind and name: `entry` is its answer.
pub open spec fn registered<
    G: Fn() -> (),
    C: Fn(usize, i32, &'static str) -> Option<&'static AtomicUsize>,
>(
    handle: BackendHandle,
    kind: i32,
    name: &'static str,
    guard: G,
    call: C,
    entry: Option<&'static AtomicUsize>,
) -> bool {
    match handle {
        BackendHandle::Absent => entry is None,
        BackendHandle::Present(at) => call_ensures(guard, (), ()) && call_ensures(
            call,
            (at, kind, name),
            entry,
        ),
    }
}

/// Registers a counter once the outcome of the lookup is known.
///
/// Without an agent there is no counter, and neither `guard` nor `call` runs.
/// With the agent at some address, `guard` runs first, to make the signal
/// stack safe for the agent's sampling, and then `call` asks the agent at that
/// address for the counter of this kind and name; its answer is the result,
/// and an answer of none means that the agent refused.
pub fn register_with<G: Fn() -> (), C: Fn(usize, i32, &'static str) -> Option<&'static AtomicUsize>>(
    handle: BackendHandle,
    kind: i32,
    name: &'static str,
    guard: &G,
    call: &C,
) -> (entry: Option<&'static AtomicUsize>)
    requires
        handle is Present ==> call_requires(*guard, ()),
        handle is Present ==> call_requires(*call, (handle->Present_0, kind, name)),
    ensures
        registered(handle, kind, name, *guard, *call, entry),
{
    match handle {
        BackendHandle::Absent => None,
        BackendHandle::Present(at) => {
            guard();
            call(at, kind, name)
        },
    }
}

/// Asks the agent for the counter of this kind and name, if there is an
/// agent. The lookup runs only if the locator has not looked before.
///
/// The outcome of the lookup is the one the locator settles on, and the
/// result is what registering gives for that outcome: none without an agent,
/// else the agent's answer, asked after `guard` has run.
pub fn coz_get_counter<
    L: Fn() -> usize,
    G: Fn() -> (),
    C: Fn(usize, i32, &'static str) -> Option<&'static AtomicUsize>,
>(locator: &Locator<L>, kind: i32, name: &'static str, guard: &G, call: &C) -> (entry: Option<
    &'static AtomicUsize,
>)
    requires
        locator.wf(),
        call_requires(*guard, ()),
        forall|at: usize| at != 0 ==> call_requires(*call, (at, kind, name)),
    ensures
        locator.found(locator.settled()),
        registered(locator.settled(), kind, name, *guard, *call, entry),
{
    let handle = locator.resolve();
    register_with(handle, kind, name, guard, call)
}

/// Every call of `resolve` on one locator hands back the same outcome: what
/// was found, or not found, by the one lookup stays for good.
pub proof fn lemma_resolve_is_settled<L: Fn() -> usize>(
    locator: &Locator<L>,
    first: BackendHandle,
    later: BackendHandle,
)
    requires
        call_ensures(Locator::<L>::resolve, (locator,), first),
        call_ensures(Locator::<L>::resolve, (locator,), later),
    ensures
        first == later,
{
}

/// An entry point that `resolve` hands back is never at the null address.
pub proof fn lemma_present_is_not_null<L: Fn() -> usize>(locator: &Locator<L>, h: BackendHandle)
    requires
        call_ensures(Locator::<L>::resolve, (locator,), h),
    ensures
        h is Present ==> h->Present_0 != 0,
{
}

/// Where the lookup can only come back with the null address, `resolve`
/// finds no agent, and no counter is registered.
pub proof fn lemma_no_agent_no_counter<
    L: Fn() -> usize,
    G: Fn() -> (),
    C: Fn(usize, i32, &'static str) -> Option<&'static AtomicUsize>,
>(
    locator: &Locator<L>,
    kind: i32,
    name: &'static str,
    guard: &G,
    call: &C,
    entry: Option<&'static AtomicUsize>,
)
    requires
        forall|at: usize| call_ensures(locator.spec_lookup(), (), at) ==> at == 0,
        call_ensures(coz_get_counter::<L, G, C>, (locator, kind, name, guard, call), entry),
    ensures
        locator.settled() == BackendHandle::Absent,
        entry is None,
{
}

} // verus!
