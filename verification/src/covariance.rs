//! The marker for covariance.

use vstd::prelude::*;
use core::marker::PhantomData;
use crate::family::Variance;
use crate::private::Sealed;
use crate::shape::Producer;

verus! {

/// Marks the type that holds it as covariant in `T`.
///
/// It takes no room and owns no `T`; all its values are equal.
#[derive(Ord, Hash, Debug)]
#[verifier::reject_recursive_types(T)]
pub struct Covariant<T: ?Sized> {
    marker: PhantomData<Producer<T>>,
}

impl<T: ?Sized> Default for Covariant<T> {
    fn default() -> (m: Self)
        ensures
            m == Self::sole(),
    {
        Self { marker: Default::default() }
    }
}

impl<T: ?Sized> Sealed for Covariant<T> {
}

impl<T: ?Sized> Variance for Covariant<T> {
    closed spec fn sole() -> Self {
        Covariant { marker: PhantomData }
    }

    proof fn lemma_sole(m: Self) {
    }
}

impl<T: ?Sized> Copy for Covariant<T> {
}

impl<T: ?Sized> Clone for Covariant<T> {
    fn clone(&self) -> (m: Self)
        ensures
            m == *self,
    {
        *self
    }
}

impl<T: ?Sized> PartialEq for Covariant<T> {
    fn eq(&self, _other: &Self) -> (equal: bool) {
        true
    }
}

impl<T: ?Sized> vstd::std_specs::cmp::PartialEqSpecImpl for Covariant<T> {
    open spec fn obeys_eq_spec() -> bool {
        true
    }

    /// Any two covariant markers compare equal.
    open spec fn eq_spec(&self, other: &Self) -> bool {
        true
    }
}

impl<T: ?Sized> Eq for Covariant<T> {
}

impl<T: ?Sized> PartialOrd for Covariant<T> {
    fn partial_cmp(&self, _other: &Self) -> (order: Option<core::cmp::Ordering>) {
        Some(core::cmp::Ordering::Equal)
    }
}

impl<T: ?Sized> vstd::std_specs::cmp::PartialOrdSpecImpl for Covariant<T> {
    open spec fn obeys_partial_cmp_spec() -> bool {
        true
    }

    /// No covariant marker comes before or after another.
    open spec fn partial_cmp_spec(&self, other: &Self) -> Option<core::cmp::Ordering> {
        Some(core::cmp::Ordering::Equal)
    }
}

} // verus!
