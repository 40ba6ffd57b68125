//! A record with structural equality and an independent duplicate.
use vstd::prelude::*;
use vstd::std_specs::cmp::PartialEqSpec;

verus! {

/// A person, compared field by field.
#[derive(Debug)]
pub struct Person {
    pub name: String,
    pub age: u32,
}

impl View for Person {
    /// The name's characters and the age.
    type V = (Seq<char>, u32);

    open spec fn view(&self) -> (Seq<char>, u32) {
        (self.name@, self.age)
    }
}

impl Person {
    pub fn new(name: String, age: u32) -> (r: Person)
        ensures
            r.name@ == name@,
            r.age == age,
    {
        Person { name, age }
    }
}

impl Clone for Person {
    /// A duplicate with its own copy of the name.
    fn clone(&self) -> (r: Person)
        ensures
            r@ == self@,
    {
        Person { name: self.name.clone(), age: self.age }
    }
}

impl PartialEq for Person {
    /// Two persons are equal when their names and ages are.
    fn eq(&self, other: &Person) -> (r: bool)
        ensures
            r == (self@ == other@),
    {
        self.name == other.name && self.age == other.age
    }
}

impl vstd::std_specs::cmp::PartialEqSpecImpl for Person {
    open spec fn obeys_eq_spec() -> bool {
        true
    }

    open spec fn eq_spec(&self, other: &Person) -> bool {
        self@ == other@
    }
}

/// A duplicate of a person always compares equal to the original, whatever
/// the name and age.
pub proof fn lemma_duplicate_compares_equal(original: Person, duplicate: Person)
    requires
        cloned::<Person>(original, duplicate),
    ensures
        original.eq_spec(&duplicate),
{
}

/// Makes the person Alice, aged 30, and a duplicate of her; returns the
/// original and whether the two compare equal.
pub fn run() -> (r: (Person, bool))
    ensures
        r.0.name@ == "Alice"@,
        r.0.age == 30,
        r.1,
{
    let p1 = Person::new(String::from_str("Alice"), 30);
    let p2 = p1.clone();
    let equal = p1 == p2;
    (p1, equal)
}

} // verus!
