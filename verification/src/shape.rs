//! The two function shapes from which the compiler reads a direction of variance.

use vstd::prelude::*;

verus! {

/// The shape of a function that returns a `T`: covariant in `T`, and owner of no `T`.
///
/// Trusted declaration: the verifier does not read function pointer types, so
/// the field is hidden from it. No value of this type is ever built. The type
/// only stands as the argument of a `PhantomData`, and no contract says
/// anything of it.
#[allow(dead_code)]
#[verifier::external_body]
#[verifier::reject_recursive_types(T)]
pub(crate) struct Producer<T: ?Sized>(fn() -> T);

/// The shape of a function that takes a `T`: contravariant in `T`, and owner of no `T`.
///
/// Trusted declaration: the verifier does not read function pointer types, so
/// the field is hidden from it. No value of this type is ever built. The type
/// only stands as the argument of a `PhantomData`, and no contract says
/// anything of it.
#[allow(dead_code)]
#[verifier::external_body]
#[verifier::reject_recursive_types(T)]
pub(crate) struct Consumer<T: ?Sized>(fn(T));

} // verus!
