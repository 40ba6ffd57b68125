//! One type with two methods of the same name, from two capabilities; each is
//! reached by naming its capability.
use vstd::prelude::*;

verus! {

/// The first capability with a `hello` method.
pub trait A {
    /// The greeting this capability produces.
    spec fn greeting(&self) -> Seq<char>;

    fn hello(&self) -> (r: String)
        ensures
            r@ == A::greeting(self),
    ;
}

/// The second capability with a `hello` method.
pub trait B {
    /// The greeting this capability produces.
    spec fn greeting(&self) -> Seq<char>;

    fn hello(&self) -> (r: String)
        ensures
            r@ == B::greeting(self),
    ;
}

/// A type that has both capabilities.
pub struct MyStruct;

impl A for MyStruct {
    open spec fn greeting(&self) -> Seq<char> {
        "Hello from A"@
    }

    fn hello(&self) -> (r: String) {
        String::from_str("Hello from A")
    }
}

impl B for MyStruct {
    open spec fn greeting(&self) -> Seq<char> {
        "Hello from B"@
    }

    fn hello(&self) -> (r: String) {
        String::from_str("Hello from B")
    }
}

/// Calls `A`'s `hello` and then `B`'s on one value; returns the two greetings,
/// which differ.
pub fn run() -> (r: Vec<String>)
    ensures
        r@.len() == 2,
        r@[0]@ == "Hello from A"@,
        r@[1]@ == "Hello from B"@,
        r@[0]@ != r@[1]@,
{
    let obj = MyStruct;
    let from_a = A::hello(&obj);
    let from_b = B::hello(&obj);
    proof {
        reveal_strlit("Hello from A");
        reveal_strlit("Hello from B");
        assert(from_a@[11] != from_b@[11]);
    }
    let mut out: Vec<String> = Vec::new();
    out.push(from_a);
    out.push(from_b);
    out
}

} // verus!
