//! What keeps the family of markers closed.

use vstd::prelude::*;

verus! {

/// A supertrait of [`crate::Variance`] that no other crate can name, so that no
/// other crate can add a type to the family.
pub trait Sealed {
}

} // verus!
