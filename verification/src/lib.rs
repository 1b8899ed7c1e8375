//! Lazily compiled, serializable regular-expression values.
//!
//! A [`Regex`] holds a pattern in one of three source forms — pattern text, an
//! encoded blob, or an already-parsed expression tree — and defers the
//! expensive engine compilation until the value is first used for matching.
//! The compiled matcher is cached once per value; a clone carries the same
//! source and compiles independently. Serialization always emits the encoding of the
//! expression tree, whichever form the value started from, and two values are
//! equal exactly when their expression trees are structurally equal.
//!
//! The matching engine itself (`fancy_regex`) sits behind a small trusted
//! boundary in [`engine`]; everything above that boundary is verified.

mod engine;
mod laws;
mod region;
mod value;

pub use engine::{ExprTree, RegexError};
pub use region::Region;
pub use laws::{lemma_clone_equal, lemma_serialize_round_trip, lemma_tree_equals_pattern, lemma_try_compile_enables_match};
pub use value::{Regex, Source, resolved_tree, source_error, source_pattern};

