//! A resource whose release is reported once, at the end of the scope that
//! holds it.
use vstd::prelude::*;

verus! {

/// The message reported when a resource is released.
pub open spec fn release_message() -> Seq<char> {
    "Resource is being dropped!"@
}

/// A handle on a resource. It carries no data; releasing it consumes it, so
/// a handle is released at most once.
pub struct Resource;

impl Resource {
    /// Acquires a resource.
    pub fn acquire() -> (r: Resource) {
        Resource
    }

    /// Releases the resource and returns the message that reports it.
    pub fn release(self) -> (r: String)
        ensures
            r@ == release_message(),
    {
        String::from_str("Resource is being dropped!")
    }
}

/// Holds a resource over a scope whose one statement reports "End of main",
/// and releases it when the scope ends. Returns the messages in the order
/// they are reported: the release message comes once, and last.
pub fn run() -> (r: Vec<String>)
    ensures
        r@.len() == 2,
        r@[0]@ == "End of main"@,
        r@[0]@ != release_message(),
        r@[1]@ == release_message(),
{
    let mut out: Vec<String> = Vec::new();
    let res = Resource::acquire();
    out.push(String::from_str("End of main"));
    out.push(res.release());
    proof {
        reveal_strlit("End of main");
        reveal_strlit("Resource is being dropped!");
        assert(out@[0]@[0] != out@[1]@[0]);
    }
    out
}

} // verus!
