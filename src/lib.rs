//! Small, self-contained demonstrations of trait-based language features,
//! each reduced to a computation whose result is stated in its contract.
//! Printing the results is left to the caller.
pub mod derive_traits;
pub mod dyn_dispatch;
pub mod operator_overloading;
pub mod drop_trait;
pub mod iterators;
pub mod impl_trait;
pub mod supertraits;
pub mod disambiguation;
