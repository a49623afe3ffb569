//! The closed family of marker types and the function that builds any of them.

use vstd::prelude::*;
use crate::private::Sealed;

verus! {

/// Implemented by [`crate::Covariant`], [`crate::Contravariant`] and
/// [`crate::Invariant`], for every parameter, and by nothing else: the
/// supertrait `Sealed` cannot be named outside this crate.
pub trait Variance: Default + Sealed {
    /// The one value that the marker type has.
    spec fn sole() -> Self;

    /// A marker holds nothing, so every value of its type is `sole()`.
    proof fn lemma_sole(m: Self)
        ensures
            m == Self::sole(),
    ;
}

/// Builds the marker of whichever kind `M` the caller asks for, as `M::default()` does.
///
/// ```
/// use variance::{variance, Covariant};
///
/// struct Tagged<T> {
///     id: u32,
///     marker: Covariant<T>,
/// }
///
/// fn tagged<T>(id: u32) -> Tagged<T> {
///     Tagged { id, marker: variance() }
/// }
/// ```
pub fn variance<M: Variance>() -> (m: M)
    ensures
        m == M::sole(),
{
    let m: M = Default::default();
    proof {
        M::lemma_sole(m);
    }
    m
}

} // verus!
