use vstd::prelude::*;

verus! {

/// Marks the types this crate lets a global hold. The module is private, so
/// no other crate can add a type.
pub trait Sealed {}

} // verus!
