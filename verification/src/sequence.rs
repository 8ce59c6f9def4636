//! The sequence counter that numbers the candidates of a run.

use vstd::prelude::*;

verus! {

/// The sequence number that a counter hands out after it has handed out
/// `issued` of them.
pub open spec fn next_number(issued: nat) -> nat {
    issued + 1
}

/// The sequence numbers handed out by the first `calls` calls on a fresh
/// counter, in the order of the calls.
pub open spec fn numbers_issued(calls: nat) -> Seq<nat>
    decreases calls,
{
    if calls == 0 {
        Seq::empty()
    } else {
        numbers_issued((calls - 1) as nat).push(next_number((calls - 1) as nat))
    }
}

/// Numbers candidates from 1 upwards. Its view is the number of sequence
/// numbers handed out so far, which is also the last one handed out.
pub struct SequenceCounter {
    issued: u64,
}

impl View for SequenceCounter {
    type V = nat;

    closed spec fn view(&self) -> nat {
        self.issued as nat
    }
}

impl SequenceCounter {
    /// A counter that has handed out nothing.
    pub fn new() -> (r: Self)
        ensures
            r@ == 0,
    {
        SequenceCounter { issued: 0 }
    }

    /// The number of sequence numbers handed out so far.
    pub fn issued(&self) -> (n: u64)
        ensures
            n == self@,
    {
        self.issued
    }

    /// Hands out the next sequence number: one more than the last. Once
    /// every `u64` has been handed out there is none left, and the counter
    /// stays as it is.
    pub fn issue(&mut self) -> (number: Option<u64>)
        ensures
            old(self)@ < u64::MAX ==> number == Some(next_number(old(self)@) as u64),
            old(self)@ < u64::MAX ==> final(self)@ == next_number(old(self)@),
            old(self)@ >= u64::MAX ==> number is None && final(self)@ == old(self)@,
    {
        if self.issued < u64::MAX {
            self.issued = self.issued + 1;
            Some(self.issued)
        } else {
            None
        }
    }
}

/// The `k`-th call on a fresh counter hands out the number `k`: sequence
/// numbers are pairwise distinct, start at 1, grow with every call, and none
/// exceeds the number of calls made.
pub proof fn lemma_numbers_issued(calls: nat)
    ensures
        numbers_issued(calls).len() == calls,
        forall|k: int| 0 <= k < calls ==> #[trigger] numbers_issued(calls)[k] == k + 1,
        forall|i: int, j: int|
            0 <= i < calls && 0 <= j < calls && i != j ==> numbers_issued(calls)[i]
                != numbers_issued(calls)[j],
        forall|k: int| 0 <= k < calls ==> 1 <= #[trigger] numbers_issued(calls)[k] <= calls,
    decreases calls,
{
    if calls > 0 {
        lemma_numbers_issued((calls - 1) as nat);
    }
}

} // verus!
