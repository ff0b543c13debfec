//! Literal nodes of a syntax tree and the source spans they came from.
//!
//! A literal keeps two things side by side: the value that the token stands
//! for, and the extent of source text that it was read from. The `span`
//! module models that extent. The `literal` module holds the four kinds of
//! literal and the rule by which each one reports where it is; `equality`
//! and `ordering` say how two nodes compare.
//!
//! Two things are taken on trust and stated without proof. `magnitude`
//! says how the big integers that integer literals keep are copied and
//! compared; `compare`, beside the small pieces that the orderings are
//! built from, says how std orders two strings.

pub mod compare;
pub mod equality;
pub mod literal;
pub mod magnitude;
pub mod ordering;
pub mod span;

pub use literal::{LitBool, LitBoolType, LitChar, LitInt, LitIntType, LitString, Literal};
pub use span::{Span, SpanView, Spanned};
