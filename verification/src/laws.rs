//! What holds of every marker, stated once for the whole family.

use vstd::prelude::*;
use vstd::std_specs::cmp::{PartialEqSpec, PartialOrdSpec};
use crate::contravariance::Contravariant;
use crate::covariance::Covariant;
use crate::family::{variance, Variance};
use crate::invariance::Invariant;

verus! {

/// Two markers of one type are the same value, whatever the kind `M` and
/// whatever the parameter it was given, sized or not.
pub proof fn lemma_markers_equal<M: Variance>(a: M, b: M)
    ensures
        a == b,
{
    M::lemma_sole(a);
    M::lemma_sole(b);
}

/// To `==` and to `<`, two markers of one type are equal too, whatever the
/// parameter is and whether or not it can be compared itself: the comparisons
/// return what the `*_spec` functions say, and those say "equal".
pub proof fn lemma_markers_compare_equal<T: ?Sized>(
    co: (Covariant<T>, Covariant<T>),
    contra: (Contravariant<T>, Contravariant<T>),
    inv: (Invariant<T>, Invariant<T>),
)
    ensures
        Covariant::<T>::obeys_eq_spec() && Covariant::<T>::obeys_partial_cmp_spec(),
        Contravariant::<T>::obeys_eq_spec() && Contravariant::<T>::obeys_partial_cmp_spec(),
        Invariant::<T>::obeys_eq_spec() && Invariant::<T>::obeys_partial_cmp_spec(),
        co.0.eq_spec(&co.1),
        contra.0.eq_spec(&contra.1),
        inv.0.eq_spec(&inv.1),
        co.0.partial_cmp_spec(&co.1) == Some(core::cmp::Ordering::Equal),
        contra.0.partial_cmp_spec(&contra.1) == Some(core::cmp::Ordering::Equal),
        inv.0.partial_cmp_spec(&inv.1) == Some(core::cmp::Ordering::Equal),
{
}

/// What [`variance`] hands out for a kind `M` is what `M::default()` hands out.
pub proof fn lemma_factory_is_default<M: Variance>(made: M, plain: M)
    requires
        call_ensures(variance::<M>, (), made),
        call_ensures(M::default, (), plain),
    ensures
        made == plain,
{
    lemma_markers_equal(made, plain);
}

/// An invariant marker is the pair of a covariant and a contravariant marker:
/// its parts are the one value of each kind, and from them it is had back.
pub proof fn lemma_invariant_is_pair<T: ?Sized>(m: Invariant<T>)
    ensures
        m.parts() == (Covariant::<T>::sole(), Contravariant::<T>::sole()),
        Invariant::from_parts(m.parts().0, m.parts().1) == m,
{
    Covariant::<T>::lemma_sole(m.parts().0);
    Contravariant::<T>::lemma_sole(m.parts().1);
    m.lemma_parts_round_trip(m.parts().0, m.parts().1);
}

} // verus!
