//! The alternate signal stack that the agent's sampling handler runs on.
//!
//! The agent samples through a signal handled on the alternate stack, and the
//! stack a language runtime installs may be too small for that handler. This
//! module decides what has to be done about it; the caller asks the operating
//! system for the current stack, reserves memory and installs the new stack.

use crate::once::settled_stack;
use once_cell::sync::OnceCell;
use vstd::prelude::*;

verus! {

/// The smallest alternate signal stack that is enough: one mebibyte.
pub const MIN_SIGNAL_STACK: usize = 1048576;

/// What to do about the alternate signal stack.
#[derive(Clone, Copy, Debug, PartialEq, Eq, Structural)]
pub enum StackPlan {
    /// The stack in place is large enough: leave it.
    Keep,
    /// Reserve `len` bytes of anonymous, private memory that can be read and
    /// written, and install them as the alternate signal stack.
    Reserve { len: usize },
}

/// An alternate signal stack as it is handed to the operating system.
#[derive(Clone, Copy, Debug, PartialEq, Eq, Structural)]
pub struct SignalStack {
    /// Address of the first byte.
    pub base: usize,
    /// Flags of the stack; none is set.
    pub flags: i32,
    /// Size in bytes.
    pub size: usize,
}

/// Why no alternate signal stack could be set up.
#[derive(Clone, Copy, Debug, PartialEq, Eq, Structural)]
pub enum StackError {
    /// The memory for the new stack could not be reserved.
    ReservationFailed,
}

/// The plan for a stack of `current` bytes.
pub open spec fn spec_plan(current: usize) -> StackPlan {
    if current >= MIN_SIGNAL_STACK {
        StackPlan::Keep
    } else {
        StackPlan::Reserve { len: MIN_SIGNAL_STACK }
    }
}

/// The stack to install once a reservation has come back, or the failure.
pub open spec fn spec_installation(len: usize, reserved: Option<usize>) -> Result<
    SignalStack,
    StackError,
> {
    match reserved {
        Some(base) => Ok(SignalStack { base, flags: 0i32, size: len }),
        None => Err(StackError::ReservationFailed),
    }
}

/// The size of the alternate signal stack once the plan for a stack of
/// `current` bytes has been carried out.
pub open spec fn size_after(current: usize) -> usize {
    match spec_plan(current) {
        StackPlan::Keep => current,
        StackPlan::Reserve { len } => len,
    }
}

/// Decides what to do about an alternate signal stack of `current` bytes.
pub fn plan(current: usize) -> (p: StackPlan)
    ensures
        p == spec_plan(current),
{
    if current >= MIN_SIGNAL_STACK {
        StackPlan::Keep
    } else {
        StackPlan::Reserve { len: MIN_SIGNAL_STACK }
    }
}

/// Describes the stack to install in `len` bytes reserved at `reserved`.
/// A reservation that failed is an error, and nothing may be installed.
pub fn installation(len: usize, reserved: Option<usize>) -> (r: Result<SignalStack, StackError>)
    ensures
        r == spec_installation(len, reserved),
{
    match reserved {
        Some(base) => Ok(SignalStack { base, flags: 0, size: len }),
        None => Err(StackError::ReservationFailed),
    }
}

/// Makes sure that the alternate signal stack is large enough.
///
/// `query` gives the size of the stack in place. If that is enough, nothing
/// else runs. If not, `reserve` is asked for the planned number of bytes and
/// `install` is handed the stack laid out in them; if `reserve` has nothing to
/// give, nothing is installed and the failure is returned.
pub fn guarantee<Q: Fn() -> usize, R: Fn(usize) -> Option<usize>, I: Fn(SignalStack) -> ()>(
    query: &Q,
    reserve: &R,
    install: &I,
) -> (r: Result<(), StackError>)
    requires
        call_requires(*query, ()),
        call_requires(*reserve, (MIN_SIGNAL_STACK,)),
        forall|base: usize|
            call_requires(
                *install,
                (SignalStack { base, flags: 0i32, size: MIN_SIGNAL_STACK },),
            ),
    ensures
        exists|current: usize| #[trigger]
            call_ensures(*query, (), current) && guaranteed(current, *reserve, *install, r),
{
    let current: usize = query();
    match plan(current) {
        StackPlan::Keep => Ok(()),
        StackPlan::Reserve { len } => {
            let reserved: Option<usize> = reserve(len);
            match installation(len, reserved) {
                Ok(stack) => {
                    install(stack);
                    Ok(())
                },
                Err(e) => Err(e),
            }
        },
    }
}

/// What `guarantee` has done and returned when the stack in place had
/// `current` bytes: with a stack that is large enough, nothing and `Ok`;
/// else it has asked `reserve` for the planned size, and either installed
/// the stack laid out in what came back and returned `Ok`, or returned the
/// failure of a reservation that gave nothing.
pub open spec fn guaranteed<R: Fn(usize) -> Option<usize>, I: Fn(SignalStack) -> ()>(
    current: usize,
    reserve: R,
    install: I,
    r: Result<(), StackError>,
) -> bool {
    match spec_plan(current) {
        StackPlan::Keep => r == Ok::<(), StackError>(()),
        StackPlan::Reserve { len } => exists|reserved: Option<usize>| #[trigger]
            call_ensures(reserve, (len,), reserved) && match spec_installation(len, reserved) {
                Ok(stack) => r == Ok::<(), StackError>(()) && call_ensures(install, (stack,), ()),
                Err(e) => r == Err::<(), StackError>(e),
            },
    }
}

/// What `guarantee` needs of the three operations: the size can be asked
/// for, the minimum can be reserved, and a stack of the minimum size can be
/// installed wherever it lies.
pub open spec fn callable<Q: Fn() -> usize, R: Fn(usize) -> Option<usize>, I: Fn(SignalStack) -> ()>(
    query: Q,
    reserve: R,
    install: I,
) -> bool {
    &&& call_requires(query, ())
    &&& call_requires(reserve, (MIN_SIGNAL_STACK,))
    &&& forall|base: usize|
        call_requires(install, (SignalStack { base, flags: 0i32, size: MIN_SIGNAL_STACK },))
}

/// Runs `guarantee` at most once, with the three operations it was built
/// with. As a guard owns its operations from the start, none of them can
/// reach the guard that runs it.
pub struct StackGuard<Q, R, I> {
    done: OnceCell<Result<(), StackError>>,
    query: Q,
    reserve: R,
    install: I,
}

impl<Q: Fn() -> usize, R: Fn(usize) -> Option<usize>, I: Fn(SignalStack) -> ()> StackGuard<
    Q,
    R,
    I,
> {
    /// The operation that gives the size of the stack in place.
    pub closed spec fn spec_query(&self) -> Q {
        self.query
    }

    /// The operation that reserves memory.
    pub closed spec fn spec_reserve(&self) -> R {
        self.reserve
    }

    /// The operation that installs a stack.
    pub closed spec fn spec_install(&self) -> I {
        self.install
    }

    /// How the one run that this guard lets through ends: the outcome that
    /// every call of `init` with this guard hands back.
    pub closed spec fn settled(&self) -> Result<(), StackError> {
        settled_stack(self.done)
    }

    /// The guard's operations can be run.
    pub open spec fn wf(&self) -> bool {
        callable(self.spec_query(), self.spec_reserve(), self.spec_install())
    }

    /// `r` is how a run of `guarantee` with the guard's operations ended.
    pub open spec fn ran(&self, r: Result<(), StackError>) -> bool {
        exists|current: usize| #[trigger]
            call_ensures(self.spec_query(), (), current) && guaranteed(
                current,
                self.spec_reserve(),
                self.spec_install(),
                r,
            )
    }

    /// A guard that has not run yet.
    pub fn new(query: Q, reserve: R, install: I) -> (g: Self)
        requires
            callable(query, reserve, install),
        ensures
            g.spec_query() == query,
            g.spec_reserve() == reserve,
            g.spec_install() == install,
            g.wf(),
    {
        StackGuard { done: OnceCell::new(), query, reserve, install }
    }

    /// `OnceCell::get_or_init` on the guard's cell, with a run of `guarantee`
    /// on the guard's own operations as the initialiser: hands back a copy
    /// of what the cell holds, after filling it if it was empty. Of all the
    /// initialisers that race for an empty cell exactly one is run; the
    /// others wait for its value. The result is the value the cell settles
    /// on. The cell is private and filled nowhere else, so that value is how
    /// a run of `guarantee` on these operations ended.
    #[verifier::external_body]
    fn first_run(&self) -> (held: Result<(), StackError>)
        requires
            self.wf(),
        ensures
            held == settled_stack(self.done),
            self.ran(held),
    {
        *self.done.get_or_init(|| guarantee(&self.query, &self.reserve, &self.install))
    }
}

/// Makes sure, on the first call with this guard, that the alternate signal
/// stack is large enough, and hands back on every call how that first run
/// ended: the outcome the guard settles on, which is how a run of
/// `guarantee` with the guard's operations ended. On `Err` the caller must
/// stop the process: signals would run on a stack that is too small.
pub fn init<Q: Fn() -> usize, R: Fn(usize) -> Option<usize>, I: Fn(SignalStack) -> ()>(
    guard: &StackGuard<Q, R, I>,
) -> (r: Result<(), StackError>)
    requires
        guard.wf(),
    ensures
        r == guard.settled(),
        guard.ran(r),
{
    guard.first_run()
}

/// A run of `guarantee` that ended well on a stack that was too small has
/// installed a stack of at least the minimum size, in memory that `reserve`
/// gave; one on a stack that was large enough has left it as it was.
pub proof fn lemma_guaranteed_stack<R: Fn(usize) -> Option<usize>, I: Fn(SignalStack) -> ()>(
    current: usize,
    reserve: R,
    install: I,
)
    requires
        guaranteed(current, reserve, install, Ok(())),
    ensures
        current >= MIN_SIGNAL_STACK || exists|base: usize|
            call_ensures(reserve, (MIN_SIGNAL_STACK,), Some(base)) && #[trigger] call_ensures(
                install,
                (SignalStack { base, flags: 0i32, size: size_after(current) },),
                (),
            ),
{
    if current < MIN_SIGNAL_STACK {
        let reserved = choose|reserved: Option<usize>| #[trigger]
            call_ensures(reserve, (MIN_SIGNAL_STACK,), reserved) && match spec_installation(
                MIN_SIGNAL_STACK,
                reserved,
            ) {
                Ok(stack) => call_ensures(install, (stack,), ()),
                Err(e) => false,
            };
        assert(reserved is Some);
        let base = reserved->Some_0;
        assert(call_ensures(
            install,
            (SignalStack { base, flags: 0i32, size: size_after(current) },),
            (),
        ));
    }
}

/// A run of `guarantee` fails only on a stack that was too small, when
/// `reserve` gave nothing.
pub proof fn lemma_guarantee_fails_on_reservation<
    R: Fn(usize) -> Option<usize>,
    I: Fn(SignalStack) -> (),
>(current: usize, reserve: R, install: I, e: StackError)
    requires
        guaranteed(current, reserve, install, Err(e)),
    ensures
        current < MIN_SIGNAL_STACK,
        e == StackError::ReservationFailed,
        call_ensures(reserve, (MIN_SIGNAL_STACK,), None::<usize>),
{
    let reserved = choose|reserved: Option<usize>| #[trigger]
        call_ensures(reserve, (MIN_SIGNAL_STACK,), reserved) && match spec_installation(
            MIN_SIGNAL_STACK,
            reserved,
        ) {
            Ok(stack) => false,
            Err(e2) => e2 == e,
        };
    assert(reserved is None);
}

/// Every call of `init` with one guard hands back the same outcome: after
/// the first run nothing is decided again.
pub proof fn lemma_init_is_settled<
    Q: Fn() -> usize,
    R: Fn(usize) -> Option<usize>,
    I: Fn(SignalStack) -> (),
>(guard: &StackGuard<Q, R, I>, first: Result<(), StackError>, later: Result<(), StackError>)
    requires
        call_ensures(init::<Q, R, I>, (guard,), first),
        call_ensures(init::<Q, R, I>, (guard,), later),
    ensures
        first == later,
{
}

/// With a guard whose `query` only ever finds a stack that is large enough,
/// `init` ends well.
pub proof fn lemma_init_keeps_large_stack<
    Q: Fn() -> usize,
    R: Fn(usize) -> Option<usize>,
    I: Fn(SignalStack) -> (),
>(guard: &StackGuard<Q, R, I>, r: Result<(), StackError>)
    requires
        call_ensures(init::<Q, R, I>, (guard,), r),
        forall|current: usize|
            call_ensures(guard.spec_query(), (), current) ==> current >= MIN_SIGNAL_STACK,
    ensures
        r == Ok::<(), StackError>(()),
{
}

/// With a guard whose `reserve` never fails, `init` ends well.
pub proof fn lemma_init_ok_when_reserve_gives<
    Q: Fn() -> usize,
    R: Fn(usize) -> Option<usize>,
    I: Fn(SignalStack) -> (),
>(guard: &StackGuard<Q, R, I>, r: Result<(), StackError>)
    requires
        call_ensures(init::<Q, R, I>, (guard,), r),
        forall|reserved: Option<usize>|
            call_ensures(guard.spec_reserve(), (MIN_SIGNAL_STACK,), reserved) ==> reserved is Some,
    ensures
        r == Ok::<(), StackError>(()),
{
}

/// Once the plan has been carried out the alternate signal stack has at least
/// the minimum size.
pub proof fn lemma_stack_large_enough(current: usize)
    ensures
        size_after(current) >= MIN_SIGNAL_STACK,
{
}

/// A stack that is installed after a reservation has the planned size, so it
/// has at least the minimum size.
pub proof fn lemma_installed_large_enough(current: usize, base: usize)
    requires
        spec_plan(current) is Reserve,
    ensures
        spec_installation(spec_plan(current)->len, Some(base)) is Ok,
        spec_installation(spec_plan(current)->len, Some(base))->Ok_0.size >= MIN_SIGNAL_STACK,
        spec_installation(spec_plan(current)->len, Some(base))->Ok_0.size == size_after(current),
{
}

/// Planning again after the plan has been carried out keeps the stack, and
/// so does every later run.
pub proof fn lemma_plan_idempotent(current: usize)
    ensures
        spec_plan(size_after(current)) == StackPlan::Keep,
        size_after(size_after(current)) == size_after(current),
{
}

} // verus!
