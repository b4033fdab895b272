//! Being generic over the presence of a `Send` bound.
//!
//! An executor integration that delegates work to another execution
//! resource may or may not need the delegated values to cross a thread
//! boundary. The marker types here let an interface say, through one
//! type parameter, whether a `Send` bound is demanded
//! ([`MustBeSend`]) or waived ([`MaybeNotSend`]).

use vstd::prelude::*;

verus! {

/// `T: Satisfies<MustBeSend>` holds if, and only if, `T: Send`.
pub struct MustBeSend;

/// `T: Satisfies<MaybeNotSend>` holds for every `T`.
pub struct MaybeNotSend;

/// Implemented only by the two bound markers of this module.
pub trait Sealed {}

/// Implemented only by the pairs of type and bound marker that this
/// module sanctions.
pub trait SealedWith<Bound> {}

/// Either [`MustBeSend`] or [`MaybeNotSend`].
pub trait SendBound: Sealed {}

impl Sealed for MustBeSend {}

impl SendBound for MustBeSend {}

impl Sealed for MaybeNotSend {}

impl SendBound for MaybeNotSend {}

/// Whether a type meets the bound a marker stands for.
pub trait Satisfies<Bound>: SealedWith<Bound> {}

impl<T: ?Sized> SealedWith<MaybeNotSend> for T {}

impl<T: ?Sized> Satisfies<MaybeNotSend> for T {}

impl<T: Send + ?Sized> SealedWith<MustBeSend> for T {}

impl<T: Send + ?Sized> Satisfies<MustBeSend> for T {}

/// The result type of an eagerly spawned delegated computation.
pub trait EagerBlockingHandle {
    type Return;
}

/// A transparent wrapper around a value that meets the [`MustBeSend`]
/// bound; it carries the value across a delegation boundary and hands
/// it back unchanged.
pub struct Sendable<T: Satisfies<MustBeSend>> {
    inner: T,
}

impl<T: Satisfies<MustBeSend>> Sendable<T> {
    /// The wrapped value.
    pub closed spec fn contents(self) -> T {
        self.inner
    }

    /// Wraps a value.
    pub fn new(value: T) -> (r: Self)
        ensures
            r.contents() == value,
    {
        Sendable { inner: value }
    }

    /// Hands the wrapped value back unchanged.
    pub fn into_inner(self) -> (r: T)
        ensures
            r == self.contents(),
    {
        self.inner
    }
}

} // verus!
