//! Numeric conversion functions for enumerated types.
//!
//! Given the declaration of an enumerated type whose members are simple
//! tags, this library produces a total conversion from a raw integer value
//! back to the matching tag, or "no match" when no tag has that value.
//! The work runs in four stages: validate that every tag is eligible
//! (carries no payload), resolve the integer representation used for
//! discriminants, compute each tag's discriminant, and emit an abstract
//! description of the conversion function as a dispatch table.

pub mod decl;
pub mod eval;
pub mod generate;
pub mod laws;
pub mod repr;
pub mod table;
pub mod validate;
