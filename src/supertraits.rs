//! A capability that can only be had by types that already have a debug
//! representation, granted to `i32`.
use vstd::prelude::*;

verus! {

/// The decimal digit characters, indexed by their value.
pub open spec fn digit_chars() -> Seq<char> {
    seq!['0', '1', '2', '3', '4', '5', '6', '7', '8', '9']
}

/// The decimal numeral of `n`, without leading zeros.
pub open spec fn decimal_digits(n: nat) -> Seq<char>
    decreases n,
{
    if n < 10 {
        seq![digit_chars()[n as int]]
    } else {
        decimal_digits(n / 10).push(digit_chars()[(n % 10) as int])
    }
}

/// The decimal numeral of `n`, with a leading '-' when it is negative.
pub open spec fn integer_text(n: int) -> Seq<char> {
    if n < 0 {
        seq!['-'] + decimal_digits((-n) as nat)
    } else {
        decimal_digits(n as nat)
    }
}

/// Relies on `i32`'s `Debug` formatting, which writes the plain decimal
/// numeral, with a leading '-' for a negative value.
#[verifier::external_body]
fn debug_text(n: i32) -> (r: String)
    ensures
        r@ == integer_text(n as int),
{
    format!("{:?}", n)
}

/// Something that can print itself; only a type with a debug representation
/// can have it.
pub trait Printable: core::fmt::Debug {
    /// The text printed for this value.
    spec fn printed(&self) -> Seq<char>;

    /// The text to print for this value.
    fn print(&self) -> (r: String)
        ensures
            r@ == self.printed(),
    ;
}

impl Printable for i32 {
    /// An integer prints as its debug representation: its decimal numeral.
    open spec fn printed(&self) -> Seq<char> {
        integer_text(*self as int)
    }

    fn print(&self) -> (r: String) {
        debug_text(*self)
    }
}

/// Prints the number 42.
pub fn run() -> (r: String)
    ensures
        r@ == seq!['4', '2'],
{
    let num: i32 = 42;
    let r = num.print();
    assert(decimal_digits(4) == seq!['4']);
    assert(r@ =~= seq!['4', '2']);
    r
}

} // verus!
