//! A counter that yields 1 through 5, one value per pull.
use vstd::prelude::*;

verus! {

/// One pull from a sequence that counts up to `bound` and has already
/// yielded the values 1 through `pos`: the position after the pull, and the
/// value it yields, or `None` once the sequence is exhausted.
pub open spec fn pull_step(pos: nat, bound: nat) -> (nat, Option<nat>) {
    if pos < bound {
        (pos + 1, Some(pos + 1))
    } else {
        (pos, None)
    }
}

/// The position of a fresh sequence counting up to `bound` after `k` pulls.
pub open spec fn position_after(bound: nat, k: nat) -> nat
    decreases k,
{
    if k == 0 {
        0
    } else {
        pull_step(position_after(bound, (k - 1) as nat), bound).0
    }
}

/// What pull number `k` (counting from 0) of a fresh sequence counting up to
/// `bound` yields.
pub open spec fn nth_pull(bound: nat, k: nat) -> Option<nat> {
    pull_step(position_after(bound, k), bound).1
}

/// A pulled `u32` seen as a natural number.
pub open spec fn pulled_value(o: Option<u32>) -> Option<nat> {
    match o {
        Some(v) => Some(v as nat),
        None => None,
    }
}

/// The values 1 through `n`, in ascending order.
pub open spec fn ascending(n: nat) -> Seq<u32> {
    Seq::new(n, |i: int| (i + 1) as u32)
}

/// Pulling repeatedly from a fresh sequence bounded at `bound` yields 1, 2,
/// ..., `bound` in order; every pull after that signals exhaustion again.
pub proof fn lemma_pulls_ascend_then_exhaust(bound: nat, k: nat)
    ensures
        position_after(bound, k) == if k < bound { k } else { bound },
        nth_pull(bound, k) == if k < bound { Some(k + 1) } else { None::<nat> },
    decreases k,
{
    if k > 0 {
        lemma_pulls_ascend_then_exhaust(bound, (k - 1) as nat);
    }
}

/// Counts from 1 up to 5. Its state is the last value yielded (0 before the
/// first pull).
pub struct Counter {
    count: u32,
}

impl View for Counter {
    type V = nat;

    closed spec fn view(&self) -> nat {
        self.count as nat
    }
}

/// The value after which a `Counter` is exhausted.
pub const COUNTER_LIMIT: u32 = 5;

impl Counter {
    /// A counter that has not yielded anything yet.
    pub fn new() -> (r: Counter)
        ensures
            r@ == 0,
    {
        Counter { count: 0 }
    }

    /// Yields the next value, or `None` once 5 has been yielded.
    pub fn next(&mut self) -> (r: Option<u32>)
        ensures
            (final(self)@, pulled_value(r)) == pull_step(old(self)@, COUNTER_LIMIT as nat),
    {
        if self.count < COUNTER_LIMIT {
            self.count = self.count + 1;
            Some(self.count)
        } else {
            None
        }
    }
}

/// Pulls from a fresh counter until it is exhausted and returns the values
/// yielded: 1, 2, 3, 4, 5.
pub fn run() -> (r: Vec<u32>)
    ensures
        r@ == seq![1u32, 2, 3, 4, 5],
{
    let mut counter = Counter::new();
    let mut out: Vec<u32> = Vec::new();
    loop
        invariant_except_break
            counter@ <= COUNTER_LIMIT,
            out@ == ascending(counter@),
        ensures
            out@ == ascending(COUNTER_LIMIT as nat),
        decreases COUNTER_LIMIT - counter@,
    {
        match counter.next() {
            Some(v) => {
                out.push(v);
                assert(out@ =~= ascending(counter@));
            },
            None => {
                break;
            },
        }
    }
    assert(ascending(COUNTER_LIMIT as nat) =~= seq![1u32, 2, 3, 4, 5]);
    out
}

} // verus!
