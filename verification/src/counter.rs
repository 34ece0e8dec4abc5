//! The handle that a call site keeps: it registers its counter on first use
//! and bumps it on every use.

use crate::backend::registered;
use crate::backend::BackendHandle;
use crate::kind::CounterKind;
use crate::name::is_c_name;
use crate::name::is_nul_terminated;
use crate::once::settled_entry;
use once_cell::sync::OnceCell;
use std::sync::atomic::AtomicUsize;
use std::sync::atomic::Ordering;
use vstd::layout::size_of_as_usize;
use vstd::layout::size_of_val_as_usize;
use vstd::prelude::*;
use vstd::string::StringSliceAdditionalSpecFns;

verus! {

/// What one use of a call site did.
#[derive(Clone, Copy, Debug, PartialEq, Eq, Structural)]
pub enum Increment {
    /// The call site has no counter: nothing was touched.
    NoCounter,
    /// The counter was bumped by one.
    Counted,
    /// The counter's count is not one machine word wide, so the agent lays
    /// its counters out in another way: nothing was touched, and the caller
    /// must stop the process.
    AbiMismatch,
}

/// The verdict on a counter whose count field is `count_size` bytes wide, on
/// a machine whose word is `word_size` bytes wide.
pub open spec fn spec_verdict(count_size: usize, word_size: usize) -> Increment {
    if count_size == word_size {
        Increment::Counted
    } else {
        Increment::AbiMismatch
    }
}

/// Tells whether a count field of `count_size` bytes is one machine word of
/// `word_size` bytes, the only width at which it may be bumped.
pub fn count_field_fits(count_size: usize, word_size: usize) -> (ok: bool)
    ensures
        ok == (count_size == word_size),
{
    count_size == word_size
}

/// What a use does with the cached outcome `entry` of a call site.
pub open spec fn spec_bump(entry: Option<&AtomicUsize>) -> Increment {
    match entry {
        None => Increment::NoCounter,
        Some(count) => spec_verdict(
            size_of_val_as_usize::<AtomicUsize>(count),
            size_of_as_usize::<usize>(),
        ),
    }
}

/// Adds one to the count, in sequentially consistent order; the sum wraps.
fn add_one(count: &AtomicUsize) {
    let _ = count.fetch_add(1, Ordering::SeqCst);
}

/// Uses the cached outcome of a call site: bumps the counter if there is one
/// and its count is one machine word wide.
pub fn bump(entry: Option<&AtomicUsize>) -> (done: Increment)
    ensures
        done == spec_bump(entry),
{
    match entry {
        None => Increment::NoCounter,
        Some(count) => {
            if count_field_fits(core::mem::size_of_val(count), core::mem::size_of::<usize>()) {
                add_one(count);
                Increment::Counted
            } else {
                Increment::AbiMismatch
            }
        },
    }
}

/// A use reports that there was no counter exactly when there was none.
pub proof fn lemma_no_counter_no_effect(entry: Option<&AtomicUsize>)
    ensures
        entry is None <==> spec_bump(entry) == Increment::NoCounter,
{
}

/// A count field of another width than the machine word is reported as a
/// mismatch, and only such a field is.
pub proof fn lemma_mismatch_is_reported(count_size: usize, word_size: usize)
    ensures
        count_size != word_size <==> spec_verdict(count_size, word_size) == Increment::AbiMismatch,
        count_size == word_size <==> spec_verdict(count_size, word_size) == Increment::Counted,
        spec_verdict(count_size, word_size) != Increment::NoCounter,
{
}

/// Without an agent a call site that registers now gets no counter, and a
/// use of that outcome touches nothing.
pub proof fn lemma_absent_agent_is_silent<
    G: Fn() -> (),
    C: Fn(usize, i32, &'static str) -> Option<&'static AtomicUsize>,
>(kind: i32, name: &'static str, guard: G, call: C, entry: Option<&'static AtomicUsize>)
    requires
        registered(BackendHandle::Absent, kind, name, guard, call, entry),
    ensures
        entry is None,
        spec_bump(entry) == Increment::NoCounter,
{
}

/// One call site's handle on its counter, with the registrar it was built
/// with. As a handle owns its registrar from the start, the registrar cannot
/// reach the handle that runs it.
pub struct Counter<F> {
    slot: OnceCell<Option<&'static AtomicUsize>>,
    kind: CounterKind,
    name: &'static str,
    register: F,
}

impl<F: Fn(i32, &'static str) -> Option<&'static AtomicUsize>> Counter<F> {
    /// What the counter measures.
    pub closed spec fn spec_kind(&self) -> CounterKind {
        self.kind
    }

    /// The counter's name, with its closing nul.
    pub closed spec fn spec_name(&self) -> &'static str {
        self.name
    }

    /// The registrar that is asked for the counter.
    pub closed spec fn spec_register(&self) -> F {
        self.register
    }

    /// The outcome of registration that this call site settles on: the
    /// counter, or none, that every use of it sees.
    pub closed spec fn outcome(&self) -> Option<&'static AtomicUsize> {
        settled_entry(self.slot)
    }

    /// The name is one the agent can read, and the registrar can be asked
    /// for the counter of this kind and name.
    pub open spec fn wf(&self) -> bool {
        &&& is_c_name(self.spec_name().spec_bytes())
        &&& call_requires(
            self.spec_register(),
            (self.spec_kind().spec_code(), self.spec_name()),
        )
    }

    /// `entry` is what the registrar answered when it was asked for the
    /// counter of this kind and name.
    pub open spec fn answered(&self, entry: Option<&'static AtomicUsize>) -> bool {
        call_ensures(
            self.spec_register(),
            (self.spec_kind().spec_code(), self.spec_name()),
            entry,
        )
    }

    /// A handle on the progress point `name`.
    pub fn progress(name: &'static str, register: F) -> (c: Self)
        requires
            is_c_name(name.spec_bytes()),
            call_requires(register, (CounterKind::Throughput.spec_code(), name)),
        ensures
            c.spec_kind() == CounterKind::Throughput,
            c.spec_name() == name,
            c.spec_register() == register,
            c.wf(),
    {
        Counter::new(CounterKind::Throughput, name, register)
    }

    /// A handle on the start of the span `name`.
    pub fn begin(name: &'static str, register: F) -> (c: Self)
        requires
            is_c_name(name.spec_bytes()),
            call_requires(register, (CounterKind::Begin.spec_code(), name)),
        ensures
            c.spec_kind() == CounterKind::Begin,
            c.spec_name() == name,
            c.spec_register() == register,
            c.wf(),
    {
        Counter::new(CounterKind::Begin, name, register)
    }

    /// A handle on the end of the span `name`.
    pub fn end(name: &'static str, register: F) -> (c: Self)
        requires
            is_c_name(name.spec_bytes()),
            call_requires(register, (CounterKind::End.spec_code(), name)),
        ensures
            c.spec_kind() == CounterKind::End,
            c.spec_name() == name,
            c.spec_register() == register,
            c.wf(),
    {
        Counter::new(CounterKind::End, name, register)
    }

    /// A handle on the counter of this kind and name, or none if the agent
    /// could not read the name.
    pub fn try_new(kind: CounterKind, name: &'static str, register: F) -> (r: Option<Self>)
        requires
            is_c_name(name.spec_bytes()) ==> call_requires(register, (kind.spec_code(), name)),
        ensures
            r is Some <==> is_c_name(name.spec_bytes()),
            r is Some ==> r->Some_0.spec_kind() == kind && r->Some_0.spec_name() == name
                && r->Some_0.spec_register() == register && r->Some_0.wf(),
    {
        if is_nul_terminated(name) {
            Some(Counter::new(kind, name, register))
        } else {
            None
        }
    }

    fn new(kind: CounterKind, name: &'static str, register: F) -> (c: Self)
        requires
            is_c_name(name.spec_bytes()),
            call_requires(register, (kind.spec_code(), name)),
        ensures
            c.spec_kind() == kind,
            c.spec_name() == name,
            c.spec_register() == register,
            c.wf(),
    {
        Counter { slot: OnceCell::new(), kind, name, register }
    }

    /// What the counter measures.
    pub fn kind(&self) -> (k: CounterKind)
        ensures
            k == self.spec_kind(),
    {
        self.kind
    }

    /// The counter's name, with its closing nul.
    pub fn name(&self) -> (n: &'static str)
        ensures
            n == self.spec_name(),
    {
        self.name
    }

    /// Registers the counter: asks the registrar for the counter of this
    /// kind and name. The answer, a counter or none, is the result.
    pub fn create_counter(&self) -> (entry: Option<&'static AtomicUsize>)
        requires
            self.wf(),
        ensures
            self.answered(entry),
    {
        let register = &self.register;
        register(self.kind.code(), self.name)
    }

    /// `OnceCell::get_or_init` on the call site's cell, with
    /// `create_counter` as the initialiser: hands back a copy of what the
    /// cell holds, after filling it if it was empty. Of all the initialisers
    /// that race for an empty cell exactly one is run; the others wait for
    /// its value. The result is the value the cell settles on. The cell is
    /// private and filled nowhere else, so that value is what the registrar
    /// answered for this kind and name.
    #[verifier::external_body]
    fn cached(&self) -> (held: Option<&'static AtomicUsize>)
        requires
            self.wf(),
        ensures
            held == settled_entry(self.slot),
            self.answered(held),
    {
        *self.slot.get_or_init(|| self.create_counter())
    }

    /// The cached outcome of this call site's registration, which is made
    /// if the call site was never used before. The result is the outcome the
    /// call site settles on, the same on every call, and it is what the
    /// registrar answered for this kind and name.
    pub fn counter(&self) -> (entry: Option<&'static AtomicUsize>)
        requires
            self.wf(),
        ensures
            entry == self.outcome(),
            self.answered(entry),
    {
        self.cached()
    }

    /// One use of the call site: registers the counter if this is the first
    /// use, then bumps the counter if the call site has one. The result says
    /// what was done with the outcome the call site settles on, which is
    /// what the registrar answered: nothing without a counter, a bump of one
    /// with a counter whose count is one machine word wide, and else a
    /// mismatch, on which the caller must stop the process.
    pub fn increment(&self) -> (done: Increment)
        requires
            self.wf(),
        ensures
            done == spec_bump(self.outcome()),
            self.answered(self.outcome()),
    {
        let entry = self.counter();
        bump(entry)
    }
}

/// All uses of one call site see the same outcome of registration, so they
/// all do the same: every one counts, or none does.
pub proof fn lemma_uses_agree<F: Fn(i32, &'static str) -> Option<&'static AtomicUsize>>(
    site: &Counter<F>,
    first: Increment,
    later: Increment,
)
    requires
        call_ensures(Counter::<F>::increment, (site,), first),
        call_ensures(Counter::<F>::increment, (site,), later),
    ensures
        first == later,
        first == Increment::NoCounter <==> site.outcome() is None,
{
}

/// A call site whose registrar never gives a counter stays silent: every
/// use reports that there was no counter.
pub proof fn lemma_refused_site_is_silent<
    F: Fn(i32, &'static str) -> Option<&'static AtomicUsize>,
>(site: &Counter<F>, done: Increment)
    requires
        call_ensures(Counter::<F>::increment, (site,), done),
        forall|entry: Option<&'static AtomicUsize>| site.answered(entry) ==> entry is None,
    ensures
        done == Increment::NoCounter,
{
}

} // verus!
