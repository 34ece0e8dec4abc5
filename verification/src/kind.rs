//! The three kinds of counter and the numbers the agent knows them by.

use vstd::prelude::*;

verus! {

/// Code of a counter that marks a progress point.
pub const COZ_COUNTER_TYPE_THROUGHPUT: i32 = 1;

/// Code of a counter that marks the start of a span.
pub const COZ_COUNTER_TYPE_BEGIN: i32 = 2;

/// Code of a counter that marks the end of a span.
pub const COZ_COUNTER_TYPE_END: i32 = 3;

/// What a counter measures.
#[derive(Clone, Copy, Debug, PartialEq, Eq, Structural)]
pub enum CounterKind {
    /// A unit of work was done.
    Throughput,
    /// A span began.
    Begin,
    /// A span ended.
    End,
}

impl CounterKind {
    /// The number that stands for this kind in a registration call.
    pub open spec fn spec_code(self) -> i32 {
        match self {
            CounterKind::Throughput => 1i32,
            CounterKind::Begin => 2i32,
            CounterKind::End => 3i32,
        }
    }

    /// The number that stands for this kind in a registration call.
    pub fn code(self) -> (c: i32)
        ensures
            c == self.spec_code(),
    {
        match self {
            CounterKind::Throughput => COZ_COUNTER_TYPE_THROUGHPUT,
            CounterKind::Begin => COZ_COUNTER_TYPE_BEGIN,
            CounterKind::End => COZ_COUNTER_TYPE_END,
        }
    }
}

/// Two kinds with the same code are the same kind.
pub proof fn lemma_code_injective(a: CounterKind, b: CounterKind)
    ensures
        a.spec_code() == b.spec_code() <==> a == b,
{
}

} // verus!
