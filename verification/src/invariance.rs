//! The marker for invariance.

use vstd::prelude::*;
use crate::contravariance::Contravariant;
use crate::covariance::Covariant;
use crate::family::Variance;
use crate::private::Sealed;

verus! {

/// Marks the type that holds it as invariant in `T`.
///
/// It is a covariant and a contravariant marker side by side, and nothing
/// else: the compiler reads both directions and allows neither. It takes no
/// room and owns no `T`; all its values are equal.
#[derive(Ord, Hash, Debug)]
#[verifier::reject_recursive_types(T)]
pub struct Invariant<T: ?Sized> {
    marker: (Covariant<T>, Contravariant<T>),
}

impl<T: ?Sized> Invariant<T> {
    /// The two markers that this one is made of.
    pub closed spec fn parts(self) -> (Covariant<T>, Contravariant<T>) {
        self.marker
    }

    /// The invariant marker made of the two given markers.
    pub closed spec fn from_parts(co: Covariant<T>, contra: Contravariant<T>) -> Self {
        Invariant { marker: (co, contra) }
    }

    /// Taking a marker apart and putting it together are inverse to each other.
    pub proof fn lemma_parts_round_trip(self, co: Covariant<T>, contra: Contravariant<T>)
        ensures
            Self::from_parts(co, contra).parts() == (co, contra),
            Self::from_parts(self.parts().0, self.parts().1) == self,
    {
    }
}

impl<T: ?Sized> Default for Invariant<T> {
    fn default() -> (m: Self)
        ensures
            m == Self::sole(),
            m.parts() == (Covariant::<T>::sole(), Contravariant::<T>::sole()),
    {
        Self { marker: Default::default() }
    }
}

impl<T: ?Sized> Sealed for Invariant<T> {
}

impl<T: ?Sized> Variance for Invariant<T> {
    closed spec fn sole() -> Self {
        Invariant { marker: (Covariant::sole(), Contravariant::sole()) }
    }

    proof fn lemma_sole(m: Self) {
        Covariant::<T>::lemma_sole(m.marker.0);
        Contravariant::<T>::lemma_sole(m.marker.1);
    }
}

impl<T: ?Sized> Copy for Invariant<T> {
}

impl<T: ?Sized> Clone for Invariant<T> {
    fn clone(&self) -> (m: Self)
        ensures
            m == *self,
    {
        *self
    }
}

impl<T: ?Sized> PartialEq for Invariant<T> {
    fn eq(&self, other: &Self) -> (equal: bool) {
        self.marker.0 == other.marker.0 && self.marker.1 == other.marker.1
    }
}

impl<T: ?Sized> vstd::std_specs::cmp::PartialEqSpecImpl for Invariant<T> {
    open spec fn obeys_eq_spec() -> bool {
        true
    }

    /// Any two invariant markers compare equal.
    open spec fn eq_spec(&self, other: &Self) -> bool {
        true
    }
}

impl<T: ?Sized> Eq for Invariant<T> {
}

impl<T: ?Sized> PartialOrd for Invariant<T> {
    fn partial_cmp(&self, other: &Self) -> (order: Option<core::cmp::Ordering>) {
        match self.marker.0.partial_cmp(&other.marker.0) {
            Some(core::cmp::Ordering::Equal) => self.marker.1.partial_cmp(&other.marker.1),
            unequal => unequal,
        }
    }
}

impl<T: ?Sized> vstd::std_specs::cmp::PartialOrdSpecImpl for Invariant<T> {
    open spec fn obeys_partial_cmp_spec() -> bool {
        true
    }

    /// No invariant marker comes before or after another.
    open spec fn partial_cmp_spec(&self, other: &Self) -> Option<core::cmp::Ordering> {
        Some(core::cmp::Ordering::Equal)
    }
}

} // verus!
