//! A sequence of 1 through `n` handed out behind an opaque type: callers see
//! only that it yields the next integer or signals exhaustion.
use vstd::prelude::*;
use crate::iterators::{ascending, pull_step, pulled_value};

verus! {

/// The sequence made by [`count_up_to`]. Its fields are private: the only
/// thing a caller can do with it is pull.
pub struct CountUpTo {
    pos: u32,
    bound: u32,
}

impl View for CountUpTo {
    /// How many values have been yielded, and the last value to yield.
    type V = (nat, nat);

    closed spec fn view(&self) -> (nat, nat) {
        (self.pos as nat, self.bound as nat)
    }
}

impl CountUpTo {
    /// Yields the next value, or `None` once the bound has been yielded.
    pub fn next(&mut self) -> (r: Option<u32>)
        ensures
            final(self)@.1 == old(self)@.1,
            (final(self)@.0, pulled_value(r)) == pull_step(old(self)@.0, old(self)@.1),
    {
        if self.pos < self.bound {
            self.pos = self.pos + 1;
            Some(self.pos)
        } else {
            None
        }
    }
}

/// The ascending integers 1 through `n`, produced one at a time.
pub fn count_up_to(n: u32) -> (r: CountUpTo)
    ensures
        r@ == (0nat, n as nat),
{
    CountUpTo { pos: 0, bound: n }
}

/// Pulls every value out of `count_up_to(5)`: 1, 2, 3, 4, 5.
pub fn run() -> (r: Vec<u32>)
    ensures
        r@ == seq![1u32, 2, 3, 4, 5],
{
    let mut numbers = count_up_to(5);
    let mut out: Vec<u32> = Vec::new();
    loop
        invariant_except_break
            numbers@.1 == 5,
            numbers@.0 <= 5,
            out@ == ascending(numbers@.0),
        ensures
            out@ == ascending(5),
        decreases 5 - numbers@.0,
    {
        match numbers.next() {
            Some(v) => {
                out.push(v);
                assert(out@ =~= ascending(numbers@.0));
            },
            None => {
                break;
            },
        }
    }
    assert(ascending(5) =~= seq![1u32, 2, 3, 4, 5]);
    out
}

} // verus!
