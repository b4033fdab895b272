//! Passing an executor context explicitly or implicitly.
//!
//! An integration point can receive its executor context either as an
//! explicit reference or through an ambient mechanism that needs no
//! value at all. Both carriers implement [`MaybeExplicit`], so an
//! interface can be generic over which of the two a caller supplies.

use vstd::prelude::*;

verus! {

/// A carrier of an executor context of type `Context`: either an
/// explicit reference or the implicit, value-free form.
pub trait MaybeExplicit<Context: ?Sized> {}

/// An explicitly passed context: a shared reference to it.
#[derive(Clone, Copy)]
pub struct ExplicitContext<'a, Context>(pub &'a Context);

impl<'a, Context> From<&'a Context> for ExplicitContext<'a, Context> {
    fn from(value: &'a Context) -> (r: Self) {
        ExplicitContext(value)
    }
}

impl<'a, Context> vstd::std_specs::convert::FromSpecImpl<&'a Context>
    for ExplicitContext<'a, Context> {
    open spec fn obeys_from_spec() -> bool {
        true
    }

    open spec fn from_spec(v: &'a Context) -> Self {
        ExplicitContext(v)
    }
}

/// An implicitly available context: no value is carried at all.
#[derive(Copy)]
pub struct ImplicitContext<Context>(pub core::marker::PhantomData<Context>);

impl<Context> Clone for ImplicitContext<Context> {
    fn clone(&self) -> (r: Self)
        ensures
            r == *self,
    {
        ImplicitContext(core::marker::PhantomData)
    }
}

impl<Context> Default for ImplicitContext<Context> {
    fn default() -> (r: Self)
        ensures
            r == ImplicitContext::<Context>(core::marker::PhantomData),
    {
        ImplicitContext(core::marker::PhantomData)
    }
}

impl<'a, Context> MaybeExplicit<Context> for ExplicitContext<'a, Context> {}

impl<Context> MaybeExplicit<Context> for ImplicitContext<Context> {}

} // verus!
