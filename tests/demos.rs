use trait_demos::derive_traits::Person as Record;
use trait_demos::disambiguation::{MyStruct, A, B};
use trait_demos::drop_trait::Resource;
use trait_demos::dyn_dispatch::{Dog, Person, Speak};
use trait_demos::impl_trait::count_up_to;
use trait_demos::iterators::Counter;
use trait_demos::operator_overloading::Point;
use trait_demos::supertraits::Printable;
use trait_demos::{
    derive_traits, disambiguation, drop_trait, dyn_dispatch, impl_trait, iterators,
    operator_overloading, supertraits,
};

#[test]
fn duplicate_compares_equal() {
    let original = Record::new("Alice".to_string(), 30);
    let duplicate = original.clone();
    assert!(original == duplicate);
    assert_eq!(duplicate.name, "Alice");
    assert_eq!(duplicate.age, 30);

    let empty = Record::new(String::new(), 0);
    assert!(empty == empty.clone());
    let oldest = Record::new("Zoë".to_string(), u32::MAX);
    assert!(oldest == oldest.clone());
}

#[test]
fn records_differing_in_one_field_are_unequal() {
    let alice = Record::new("Alice".to_string(), 30);
    assert!(alice != Record::new("Alice".to_string(), 31));
    assert!(alice != Record::new("Alicia".to_string(), 30));
}

#[test]
fn derive_run_reports_alice_and_equality() {
    let (person, equal) = derive_traits::run();
    assert_eq!(person.name, "Alice");
    assert_eq!(person.age, 30);
    assert!(equal);
    assert_eq!(format!("{:?}", person), "Person { name: \"Alice\", age: 30 }");
}

#[test]
fn speakers_say_their_phrases() {
    assert_eq!(Person.speak(), "Hello!");
    assert_eq!(Dog.speak(), "Woof!");
}

#[test]
fn dispatch_run_speaks_in_insertion_order() {
    assert_eq!(dyn_dispatch::run(), vec!["Hello!".to_string(), "Woof!".to_string()]);
}

#[test]
fn points_add_field_wise() {
    let r = Point { x: 1, y: 2 } + Point { x: 3, y: 4 };
    assert_eq!(r, Point { x: 4, y: 6 });
    assert_eq!(operator_overloading::run(), Point { x: 4, y: 6 });
    assert_eq!(format!("{:?}", r), "Point { x: 4, y: 6 }");
}

#[test]
fn point_addition_wraps_on_overflow() {
    let r = Point { x: i32::MAX, y: i32::MIN } + Point { x: 1, y: -1 };
    assert_eq!(r, Point { x: i32::MIN, y: i32::MAX });
    let r = Point { x: -5, y: 7 } + Point { x: 5, y: -10 };
    assert_eq!(r, Point { x: 0, y: -3 });
}

#[test]
fn resource_release_reports_once_and_last() {
    let out = drop_trait::run();
    assert_eq!(
        out,
        vec!["End of main".to_string(), "Resource is being dropped!".to_string()]
    );
    assert_eq!(
        out.iter().filter(|l| *l == "Resource is being dropped!").count(),
        1
    );
}

#[test]
fn releasing_a_resource_gives_its_message() {
    let res = Resource::acquire();
    assert_eq!(res.release(), "Resource is being dropped!");
}

#[test]
fn counter_yields_one_to_five_then_stays_exhausted() {
    let mut c = Counter::new();
    for expected in 1..=5u32 {
        assert_eq!(c.next(), Some(expected));
    }
    assert_eq!(c.next(), None);
    assert_eq!(c.next(), None);
    assert_eq!(c.next(), None);
}

#[test]
fn iterators_run_collects_one_to_five() {
    assert_eq!(iterators::run(), vec![1, 2, 3, 4, 5]);
}

#[test]
fn count_up_to_zero_yields_nothing() {
    let mut s = count_up_to(0);
    assert_eq!(s.next(), None);
    assert_eq!(s.next(), None);
}

#[test]
fn count_up_to_three_yields_ascending_then_exhausts() {
    let mut s = count_up_to(3);
    assert_eq!(s.next(), Some(1));
    assert_eq!(s.next(), Some(2));
    assert_eq!(s.next(), Some(3));
    assert_eq!(s.next(), None);
    assert_eq!(s.next(), None);
}

#[test]
fn count_up_to_largest_bound_starts_at_one() {
    let mut s = count_up_to(u32::MAX);
    assert_eq!(s.next(), Some(1));
    assert_eq!(s.next(), Some(2));
}

#[test]
fn impl_trait_run_collects_one_to_five() {
    assert_eq!(impl_trait::run(), vec![1, 2, 3, 4, 5]);
}

#[test]
fn integers_print_as_decimal() {
    assert_eq!(supertraits::run(), "42");
    assert_eq!(0i32.print(), "0");
    assert_eq!((-7i32).print(), "-7");
    assert_eq!(1000i32.print(), "1000");
    assert_eq!(i32::MIN.print(), "-2147483648");
    assert_eq!(i32::MAX.print(), "2147483647");
}

#[test]
fn qualified_hellos_differ() {
    let obj = MyStruct;
    assert_eq!(A::hello(&obj), "Hello from A");
    assert_eq!(B::hello(&obj), "Hello from B");
    assert_eq!(
        disambiguation::run(),
        vec!["Hello from A".to_string(), "Hello from B".to_string()]
    );
}
