use vstd::prelude::*;

verus! {

/// Supertrait that seals the naming capability interface.
///
/// This module is private, so code outside this crate can never name this
/// trait, and therefore can never implement [`crate::named::Named`] for a
/// type of its own. Sealing is what makes a name a trustworthy witness of
/// provenance: the only way to obtain a value whose type implements the
/// capability interface is through the sanctioned constructor.
pub trait Sealed {}

} // verus!
