//! Attach unforgeable, type-level names to runtime values and build
//! zero-overhead tokens witnessing logical propositions about them.
//!
//! The crate has two independent facilities. The naming facility
//! ([`named`]) wraps a value together with an opaque type-level identity,
//! so that generic code can demand that two values share the same name.
//! The deduction facility ([`logic`]) offers zero-size tokens indexed by
//! type-level propositions, together with the introduction and elimination
//! rules of intuitionistic natural deduction, so that the host type checker
//! rejects any token that was not derived through the sanctioned rules.

mod sealed;

pub mod logic;
pub mod named;
