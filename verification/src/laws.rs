//! Laws relating the library's operations, stated over the same models that
//! the operations' own contracts use.

use vstd::prelude::*;

verus! {

use crate::engine::{compile_ok, decoded_pattern_of, parse_of};
use crate::value::{Source, resolved_tree, source_pattern};

/// Round trip: serializing a value whose source resolves yields bytes that
/// load back (via `Regex::deserialize`) into a value equal to the original,
/// whichever source representation the original held. `bytes` decoding back
/// to the value's pattern is what `Regex::serialize` ensures of its output;
/// `Source::Blob(bytes)` is what `Regex::deserialize` ensures of the value
/// it builds; the conclusion is what `==` on the two values returns.
pub proof fn lemma_serialize_round_trip(v: Source, bytes: Seq<u8>)
    requires
        resolved_tree(v) is Some,
        source_pattern(v) matches Some(p) && decoded_pattern_of(bytes) == Some(p),
    ensures
        resolved_tree(Source::Blob(bytes)) is Some,
        resolved_tree(Source::Blob(bytes)) == resolved_tree(v),
{
}

/// Clone independence: a clone holds the same source as the original
/// (`Regex::clone` ensures the views are equal), and equality depends only
/// on the resolved tree of the source — not on whether either side has
/// compiled — so two clones of a resolvable value, each compiled or not,
/// are equal to each other and to the original.
pub proof fn lemma_clone_equal(a: Source, b: Source)
    requires
        a == b,
        resolved_tree(a) is Some,
    ensures
        resolved_tree(a) is Some && resolved_tree(a) == resolved_tree(b),
{
}

/// Representation insensitivity: a value built from an expression tree
/// equals one built from pattern text whenever parsing that text yields a
/// structurally equal tree, even before either value is compiled.
/// `Source::Tree(tree_pattern)` is what `Regex::from_expr_tree` ensures;
/// `Source::Pattern(text)` is what `Regex::new` ensures.
pub proof fn lemma_tree_equals_pattern(tree_pattern: Seq<char>, text: Seq<char>)
    requires
        parse_of(tree_pattern) is Some,
        parse_of(text) == parse_of(tree_pattern),
    ensures
        resolved_tree(Source::Tree(tree_pattern)) is Some,
        resolved_tree(Source::Tree(tree_pattern)) == resolved_tree(Source::Pattern(text)),
{
}

/// A pattern that `Regex::try_compile` accepts satisfies everything that
/// `Regex::is_match` and `Regex::search` require of a value built from it
/// with `Regex::new`, so using such a value cannot panic.
pub proof fn lemma_try_compile_enables_match(p: Seq<char>)
    requires
        parse_of(p) is Some,
        compile_ok(p),
    ensures
        source_pattern(Source::Pattern(p)) matches Some(q) && q == p && compile_ok(q),
{
}

} // verus!
