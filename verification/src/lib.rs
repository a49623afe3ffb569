//! Markers that state how a generic type varies with one of its parameters.
//!
//! A generic type `F` relates to a parameter `T` in one of three ways:
//!  - covariant: `F<T>` may stand where `F<U>` is wanted whenever `T` may stand
//!    where `U` is wanted;
//!  - contravariant: `F<T>` may stand where `F<U>` is wanted whenever `U` may
//!    stand where `T` is wanted;
//!  - invariant: `F<T>` and `F<U>` are unrelated unless `T` is `U`.
//!
//! The compiler works this out from the fields of `F`. It cannot when no field
//! uses `T`, and it may settle on more freedom than the author wants. A field of
//! type [`Covariant<T>`], [`Contravariant<T>`] or [`Invariant<T>`] says which of
//! the three is meant. Such a field takes no room and holds no `T`.
//!
//! A parameter that two fields use in opposite ways is invariant. So a
//! [`Covariant<T>`] or [`Contravariant<T>`] beside a field that already uses `T`
//! can only narrow what the compiler allows, and [`Invariant<T>`] always wins.
//!
//! Each marker type has exactly one value. [`Variance`] names that value and
//! [`variance`] builds it; the module [`laws`] states what follows.

mod contravariance;
mod covariance;
mod family;
mod invariance;
pub mod laws;
mod private;
mod shape;

pub use contravariance::Contravariant;
pub use covariance::Covariant;
pub use family::{variance, Variance};
pub use invariance::Invariant;
