//! The marker for contravariance.

use vstd::prelude::*;
use core::marker::PhantomData;
use crate::family::Variance;
use crate::private::Sealed;
use crate::shape::Consumer;

verus! {

/// Marks the type that holds it as contravariant in `T`.
///
/// It takes no room and owns no `T`; all its values are equal.
#[derive(Ord, Hash, Debug)]
#[verifier::reject_recursive_types(T)]
pub struct Contravariant<T: ?Sized> {
    marker: PhantomData<Consumer<T>>,
}

impl<T: ?Sized> Default for Contravariant<T> {
    fn default() -> (m: Self)
        ensures
            m == Self::sole(),
    {
        Self { marker: Default::default() }
    }
}

impl<T: ?Sized> Sealed for Contravariant<T> {
}

impl<T: ?Sized> Variance for Contravariant<T> {
    closed spec fn sole() -> Self {
        Contravariant { marker: PhantomData }
    }

    proof fn lemma_sole(m: Self) {
    }
}

impl<T: ?Sized> Copy for Contravariant<T> {
}

impl<T: ?Sized> Clone for Contravariant<T> {
    fn clone(&self) -> (m: Self)
        ensures
            m == *self,
    {
        *self
    }
}

impl<T: ?Sized> PartialEq for Contravariant<T> {
    fn eq(&self, _other: &Self) -> (equal: bool) {
        true
    }
}

impl<T: ?Sized> vstd::std_specs::cmp::PartialEqSpecImpl for Contravariant<T> {
    open spec fn obeys_eq_spec() -> bool {
        true
    }

    /// Any two contravariant markers compare equal.
    open spec fn eq_spec(&self, other: &Self) -> bool {
        true
    }
}

impl<T: ?Sized> Eq for Contravariant<T> {
}

impl<T: ?Sized> PartialOrd for Contravariant<T> {
    fn partial_cmp(&self, _other: &Self) -> (order: Option<core::cmp::Ordering>) {
        Some(core::cmp::Ordering::Equal)
    }
}

impl<T: ?Sized> vstd::std_specs::cmp::PartialOrdSpecImpl for Contravariant<T> {
    open spec fn obeys_partial_cmp_spec() -> bool {
        true
    }

    /// No contravariant marker comes before or after another.
    open spec fn partial_cmp_spec(&self, other: &Self) -> Option<core::cmp::Ordering> {
        Some(core::cmp::Ordering::Equal)
    }
}

} // verus!
