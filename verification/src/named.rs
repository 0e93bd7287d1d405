//! Annotate values with opaque type-level names.

use vstd::prelude::*;

verus! {

/// A value annotated with a type-level name.
///
/// A name serves as a type-level witness that two values are the same, or
/// that a property stated about the name applies to the value carrying it.
/// This is useful for things like sorted sequences or search trees with a
/// caller-supplied ordering, where it matters that every operation uses the
/// same comparison function.
///
/// The trait is sealed: library consumers cannot implement it for their own
/// types, since a self-made identity would be no witness of anything.
/// Wrappers are obtained from [`name`] alone.
pub trait Named<A>: crate::sealed::Sealed {
    /// The opaque type-level identity of this wrapper.
    type Name;

    /// The wrapped value, as contracts see it.
    spec fn inner(&self) -> A;

    /// Borrow the wrapped value without consuming the wrapper.
    fn out_ref(&self) -> (r: &A)
        ensures
            *r == self.inner(),
    ;

    /// Consume the wrapper, returning the value and discarding the name.
    fn out(self) -> (r: A)
        ensures
            r == self.inner(),
    ;
}

/// The one wrapper type implementing [`Named`]. Private, so callers only
/// ever see it behind `impl Named<A>` with the `Name` parameter hidden.
#[verifier::reject_recursive_types(Name)]
struct Tagged<Name, A> {
    value: A,
    tag: core::marker::PhantomData<Name>,
}

/// The concrete identity handed to [`Tagged`] inside [`name`]; existential
/// quantification renders it opaque to every caller.
struct Anon;

impl<Name, A> crate::sealed::Sealed for Tagged<Name, A> {}

impl<Name, A> Named<A> for Tagged<Name, A> {
    type Name = Name;

    closed spec fn inner(&self) -> A {
        self.value
    }

    fn out_ref(&self) -> (r: &A) {
        &self.value
    }

    fn out(self) -> (r: A) {
        self.value
    }
}

/// Annotate a value with a type-level name.
///
/// The wrapper is returned as an existentially opaque `impl Named<A>`, so
/// that the identity behind `Name` stays hidden: two calls of `name` on
/// structurally identical inputs do not type-unify from the caller's point
/// of view, and callers cannot supply identities of their own. (The
/// freshness is only as strong as the host checker's treatment of opaque
/// return types: identical invocations are not guaranteed distinct. This is
/// an accepted limitation, left as is rather than papered over with a
/// runtime token, which would forfeit the zero-cost character.)
///
/// The operation cannot fail and has no side effects; the wrapper observes
/// exactly the value passed in.
pub fn name<A>(x: A) -> (r: impl Named<A>)
    ensures
        r.inner() == x,
{
    Tagged::<Anon, A> { value: x, tag: core::marker::PhantomData }
}

} // verus!
