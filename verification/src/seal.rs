//! What keeps a part of a public trait to this library.

use vstd::prelude::*;

verus! {

/// The type of a parameter that keeps a function of a public trait to this
/// library: the module is private, so no other crate can name the type, and
/// none can write a function that takes it.
pub struct Seal;

} // verus!
