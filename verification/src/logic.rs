//! Zero-size tokens witnessing type-level propositions, with the
//! introduction and elimination rules of intuitionistic natural deduction.
//!
//! A token of type [`Proof`]`<P>` exists in a well-typed program only if a
//! derivation of `P` — built from the combinators below, possibly resting on
//! [`postulate`] — type-checked. The combinators all construct a fresh
//! zero-size token; the meaning of the system lies entirely in their
//! signatures, which restrict what may be combined into what. No combinator
//! performs runtime work, fails, or has a side effect.

use vstd::prelude::*;

verus! {

/// A witness that the type-level proposition `P` has been derived.
///
/// Tokens are zero-size markers: they carry no data, so equality and
/// inspection are meaningless and unsupported. They exist only so that the
/// type checker can track which propositions a piece of code has
/// established.
pub struct Proof<P> {
    marker: core::marker::PhantomData<P>,
}

/// A value of type `A` carried together with a token for the proposition
/// `P`.
///
/// This is generally used alongside [`crate::named::Named`]: a wrapper of
/// type `SuchThat<W, P>`, where `W` names a value under the identity `N`
/// and `P` speaks of `N`, reads as "a value named `N` such that `P` holds".
/// Nothing mechanically ties `P` to the carried value — the pairing is
/// documentary, and the link is the shared name, a convention upheld by
/// whichever domain constructor produced the token.
pub struct SuchThat<A, P> {
    value: A,
    marker: core::marker::PhantomData<P>,
}

impl<A, P> SuchThat<A, P> {
    /// The carried value, as contracts see it.
    pub closed spec fn inner(self) -> A {
        self.value
    }

    /// Extract the value, discarding the token.
    pub fn out(self) -> (r: A)
        ensures
            r == self.inner(),
    {
        self.value
    }

    /// Borrow the carried value without consuming the pair.
    pub fn out_ref(&self) -> (r: &A)
        ensures
            *r == self.inner(),
    {
        &self.value
    }
}

/// Pair a value with a token for `P`, consuming the token.
///
/// The pairing cannot fail and carries the value through unchanged.
pub fn such_that<A, P>(x: A, _p: Proof<P>) -> (r: SuchThat<A, P>)
    ensures
        r.inner() == x,
{
    SuchThat { value: x, marker: core::marker::PhantomData }
}

/// The trivially true proposition.
pub struct TRUE;

/// The absurd proposition; no introduction rule exists for it short of
/// [`postulate`], and from a token of it anything follows.
pub struct FALSE;

/// Conjunction of `P` and `Q`.
pub struct And<P, Q> {
    marker: core::marker::PhantomData<(P, Q)>,
}

/// Disjunction of `P` and `Q`.
pub struct Or<P, Q> {
    marker: core::marker::PhantomData<(P, Q)>,
}

/// Negation of `P`.
pub struct Neg<P> {
    marker: core::marker::PhantomData<P>,
}

/// Implication from `P` to `Q`.
pub struct Implies<P, Q> {
    marker: core::marker::PhantomData<(P, Q)>,
}

/// Logical equivalence of `P` and `Q`. Definable in terms of [`Implies`],
/// but provided on its own for convenience.
pub struct Equiv<P, Q> {
    marker: core::marker::PhantomData<(P, Q)>,
}

/// The canonical token for `P`, as contracts see it.
///
/// Tokens carry no data, so every token of a given proposition is this one
/// value; each combinator below promises to return it, which pins the
/// combinators' runtime behaviour completely. Which propositions a program
/// can obtain tokens *for* is not decided here but by the signatures alone.
pub closed spec fn token<P>() -> Proof<P> {
    Proof { marker: core::marker::PhantomData }
}

/// Manufacture a token for an arbitrary proposition `P`, with no
/// derivation.
///
/// This is the single trusted escape hatch of the deduction facility, and
/// the one place where its soundness can be broken. It exists so that a
/// library author can postulate domain-specific truths the combinators
/// cannot derive on their own — say, that adding a key to a map leaves the
/// other keys untouched. Every other constructor below is written in terms
/// of this hatch or of the other combinators, never by fabricating a token
/// of its own, which keeps the soundness boundary auditable at this one
/// function.
pub fn postulate<P>() -> (r: Proof<P>)
    ensures
        r == token::<P>(),
{
    Proof { marker: core::marker::PhantomData }
}

/// Introduce the trivially true proposition.
pub fn true_intro() -> (r: Proof<TRUE>)
    ensures
        r == token::<TRUE>(),
{
    postulate()
}

/// Introduce a conjunction from tokens for both halves.
pub fn and_intro<P, Q>(_p: Proof<P>, _q: Proof<Q>) -> (r: Proof<And<P, Q>>)
    ensures
        r == token::<And<P, Q>>(),
{
    postulate()
}

/// Project the left half back out of a conjunction.
pub fn and_elim_l<P, Q>(_pq: Proof<And<P, Q>>) -> (r: Proof<P>)
    ensures
        r == token::<P>(),
{
    postulate()
}

/// Project the right half back out of a conjunction.
pub fn and_elim_r<P, Q>(_pq: Proof<And<P, Q>>) -> (r: Proof<Q>)
    ensures
        r == token::<Q>(),
{
    postulate()
}

/// Inject the left side into a disjunction.
pub fn or_intro_l<P, Q>(_p: Proof<P>) -> (r: Proof<Or<P, Q>>)
    ensures
        r == token::<Or<P, Q>>(),
{
    postulate()
}

/// Inject the right side into a disjunction.
pub fn or_intro_r<P, Q>(_q: Proof<Q>) -> (r: Proof<Or<P, Q>>)
    ensures
        r == token::<Or<P, Q>>(),
{
    postulate()
}

/// Introduce an implication from a function deriving `Q`-tokens from
/// `P`-tokens.
pub fn impl_intro<P, Q, F>(_f: F) -> (r: Proof<Implies<P, Q>>)
    where
        F: Fn(Proof<P>) -> Proof<Q>,
    ensures
        r == token::<Implies<P, Q>>(),
{
    postulate()
}

/// Eliminate an implication: modus ponens.
pub fn impl_elim<P, Q>(_f: Proof<Implies<P, Q>>, _p: Proof<P>) -> (r: Proof<Q>)
    ensures
        r == token::<Q>(),
{
    postulate()
}

/// Introduce a negation from a function deriving absurdity from `P`-tokens.
pub fn neg_intro<P, F>(_f: F) -> (r: Proof<Neg<P>>)
    where
        F: Fn(Proof<P>) -> Proof<FALSE>,
    ensures
        r == token::<Neg<P>>(),
{
    postulate()
}

/// Eliminate a negation against a token for the negated proposition.
pub fn neg_elim<P>(_np: Proof<Neg<P>>, _p: Proof<P>) -> (r: Proof<FALSE>)
    ensures
        r == token::<FALSE>(),
{
    postulate()
}

/// From absurdity, anything: ex falso quodlibet.
pub fn false_elim<P>(_f: Proof<FALSE>) -> (r: Proof<P>)
    ensures
        r == token::<P>(),
{
    postulate()
}

/// Introduce an equivalence from derivation functions in each direction.
pub fn equiv_intro<P, Q, F1, F2>(_pq: F1, _qp: F2) -> (r: Proof<Equiv<P, Q>>)
    where
        F1: Fn(Proof<P>) -> Proof<Q>,
        F2: Fn(Proof<Q>) -> Proof<P>,
    ensures
        r == token::<Equiv<P, Q>>(),
{
    postulate()
}

/// Eliminate an equivalence in the forward direction.
pub fn equiv_elim<P, Q>(_pq: Proof<Equiv<P, Q>>, _p: Proof<P>) -> (r: Proof<Q>)
    ensures
        r == token::<Q>(),
{
    postulate()
}

/// Every proposition is equivalent to itself.
pub fn refl<P>() -> (r: Proof<Equiv<P, P>>)
    ensures
        r == token::<Equiv<P, P>>(),
{
    equiv_intro(|p: Proof<P>| p, |p: Proof<P>| p)
}

/// Alias of [`impl_elim`]; use it if it makes a derivation clearer.
pub fn modus_ponens<P, Q>(f: Proof<Implies<P, Q>>, x: Proof<P>) -> (r: Proof<Q>)
    ensures
        r == token::<Q>(),
{
    impl_elim(f, x)
}

/// Alias of [`false_elim`]; use it if it makes a derivation clearer.
pub fn absurd<P>(x: Proof<FALSE>) -> (r: Proof<P>)
    ensures
        r == token::<P>(),
{
    false_elim(x)
}

/// From tokens for a proposition and its negation, derive anything.
pub fn contradict<P, Q>(x: Proof<P>, f: Proof<Neg<P>>) -> (r: Proof<Q>)
    ensures
        r == token::<Q>(),
{
    absurd(neg_elim(f, x))
}

} // verus!
