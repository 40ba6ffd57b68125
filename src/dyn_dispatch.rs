//! Two unrelated types that share one capability, called through a uniform
//! handle without knowing which type is behind it.
use vstd::prelude::*;

verus! {

/// Something that can speak: it produces a fixed phrase of its own.
pub trait Speak {
    /// The phrase this speaker produces.
    spec fn phrase(&self) -> Seq<char>;

    fn speak(&self) -> (r: String)
        ensures
            r@ == self.phrase(),
    ;
}

/// A person-like speaker.
pub struct Person;

/// A dog-like speaker.
pub struct Dog;

impl Speak for Person {
    open spec fn phrase(&self) -> Seq<char> {
        "Hello!"@
    }

    fn speak(&self) -> (r: String) {
        String::from_str("Hello!")
    }
}

impl Speak for Dog {
    open spec fn phrase(&self) -> Seq<char> {
        "Woof!"@
    }

    fn speak(&self) -> (r: String) {
        String::from_str("Woof!")
    }
}

/// Asks a person and then a dog, held behind the same handle type, to speak;
/// returns what they said, in that order.
pub fn run() -> (r: Vec<String>)
    ensures
        r@.len() == 2,
        r@[0]@ == "Hello!"@,
        r@[1]@ == "Woof!"@,
{
    let speakers: Vec<Box<dyn Speak>> = vec![Box::new(Person), Box::new(Dog)];
    let mut out: Vec<String> = Vec::new();
    let mut i: usize = 0;
    while i < speakers.len()
        invariant
            i <= speakers@.len(),
            out@.len() == i,
            forall|j: int| 0 <= j < i ==> #[trigger] out@[j]@ == speakers@[j].phrase(),
        decreases speakers@.len() - i,
    {
        out.push(speakers[i].speak());
        i = i + 1;
    }
    out
}

} // verus!
