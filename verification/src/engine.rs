//! The engine adapter: a trusted boundary around the `fancy_regex` backend.
//!
//! Parsing, compiling and searching happen behind the wrappers declared here;
//! the rest of the crate is verified against the contracts they state. Each
//! wrapper's doc comment names the engine function it relies on.

use vstd::prelude::*;

verus! {

use vstd::string::*;

/// Errors reported by this library.
#[derive(Debug, Clone, Copy, PartialEq, Eq, Structural)]
pub enum RegexError {
    /// The pattern text does not parse as a regular expression.
    InvalidPattern,
    /// A serialized blob does not decode to an expression tree.
    CorruptEncoding,
}

#[verifier::external_type_specification]
#[verifier::external_body]
pub struct ExExpr(fancy_regex::Expr);

#[verifier::external_type_specification]
#[verifier::external_body]
pub struct ExError(fancy_regex::Error);

/// The engine's compiled matcher, opaque to the verifier. (Its type cannot be
/// declared to Verus here because its name coincides with this crate's own
/// `Regex`, so it is hidden in a field instead.)
#[verifier::external_body]
pub(crate) struct Matcher {
    inner: fancy_regex::Regex,
}

/// The structural identity of the expression tree that parsing a pattern
/// yields: `None` when the pattern does not parse, and `Some` of the same
/// value for two patterns exactly when their parsed trees are structurally
/// equal. The parse is a function of the pattern text alone.
pub uninterp spec fn parse_of(pattern: Seq<char>) -> Option<int>;

/// Whether the engine compiles the pattern into a matcher. Compilation can
/// reject some patterns that parse (for example an unsupported look-behind),
/// so this is not implied by `parse_of` succeeding.
pub uninterp spec fn compile_ok(pattern: Seq<char>) -> bool;

/// The expression tree of a pattern: the engine-independent parsed form,
/// together with the pattern text it was parsed from. This is the only form
/// a regex value ever persists.
pub struct ExprTree {
    pattern: String,
    expr: fancy_regex::Expr,
}

impl View for ExprTree {
    type V = Seq<char>;

    closed spec fn view(&self) -> Seq<char> {
        self.pattern@
    }
}

impl ExprTree {
    /// Every tree holds a pattern that parses; `expr` is that parse.
    #[verifier::type_invariant]
    pub open spec fn wf(self) -> bool {
        parse_of(self.view()) is Some
    }

    /// The pattern text this tree was parsed from.
    pub fn pattern_str(&self) -> (r: &str)
        ensures
            r@ == self@,
    {
        self.pattern.as_str()
    }

    /// Relies on `bincode::serialize` of the tree's pattern string: the
    /// persisted form of a tree is the codec's opaque binary framing of that
    /// string, which `bincode::deserialize` reads back unchanged (the
    /// codec's documented round trip). Serializing a string with the default
    /// options cannot fail: no size limit is configured and writing to a
    /// vector cannot fail.
    #[verifier::external_body]
    pub fn encode(&self) -> (r: Vec<u8>)
        ensures
            r@ == encoded_tree_of(self@),
            decoded_pattern_of(r@) == Some(self@),
    {
        bincode::serialize(&self.pattern).expect("serializing a string to bytes cannot fail")
    }
}

/// The codec's binary encoding of an expression tree, keyed by the pattern
/// the tree carries: what `bincode::serialize` returns for that string. A
/// function of the pattern alone.
pub uninterp spec fn encoded_tree_of(pattern: Seq<char>) -> Seq<u8>;

/// The pattern string the codec reads back from a blob: what
/// `bincode::deserialize` returns, `None` when the bytes are not an encoding
/// of a string. A function of the bytes alone.
pub uninterp spec fn decoded_pattern_of(bytes: Seq<u8>) -> Option<Seq<char>>;

/// Relies on `bincode::deserialize`: `Ok` exactly when the bytes decode as a
/// string under the codec's default options, and then yields that string.
#[verifier::external_body]
pub(crate) fn decode_blob(bytes: &[u8]) -> (r: Option<String>)
    ensures
        (r is Some) == (decoded_pattern_of(bytes@) is Some),
        r matches Some(p) ==> Some(p@) == decoded_pattern_of(bytes@),
{
    bincode::deserialize::<String>(bytes).ok()
}

/// Relies on `fancy_regex::Expr::parse_tree`: it returns `Ok` exactly when
/// the pattern text parses, and then yields the pattern's expression tree.
/// The tree stored here is always the parse of the pattern stored beside it.
#[verifier::external_body]
pub(crate) fn parse_pattern(pattern: &str) -> (r: Result<ExprTree, fancy_regex::Error>)
    ensures
        (r is Ok) == (parse_of(pattern@) is Some),
        r matches Ok(t) ==> t@ == pattern@,
{
    match fancy_regex::Expr::parse_tree(pattern) {
        Ok(tree) => Ok(ExprTree { pattern: pattern.to_owned(), expr: tree.expr }),
        Err(e) => Err(e),
    }
}

/// Relies on the derived `PartialEq` for `fancy_regex::Expr`, which compares
/// expression trees structurally. Every `ExprTree` holds the parse of its own
/// pattern (each constructor in this module establishes that), so structural
/// equality of the stored trees coincides with equality of the parse
/// identities of the stored patterns. Capture-group names live outside
/// `Expr` in this engine and are not compared: two trees differing only in
/// group names count as structurally equal, which changes nothing observable
/// here since this library addresses groups by index only.
#[verifier::external_body]
pub(crate) fn trees_equal(a: &ExprTree, b: &ExprTree) -> (r: bool)
    requires
        parse_of(a@) is Some,
        parse_of(b@) is Some,
    ensures
        r == (parse_of(a@) == parse_of(b@)),
{
    a.expr == b.expr
}

impl Clone for ExprTree {
    /// Relies on the derived `Clone` for `fancy_regex::Expr`: a structural
    /// copy, so the clone still holds the parse of the same pattern.
    #[verifier::external_body]
    fn clone(&self) -> (r: Self)
        ensures
            r@ == self@,
    {
        ExprTree { pattern: self.pattern.clone(), expr: self.expr.clone() }
    }
}

/// What the compiled matcher for `pattern` reports for a whole-text match
/// test on `text` (given as the text's UTF-8 bytes): `None` when the engine
/// fails internally (for example by exceeding its backtracking limit), and
/// otherwise whether a match exists anywhere in the text. The outcome is a
/// function of the pattern and the text alone.
pub uninterp spec fn is_match_of(pattern: Seq<char>, text: Seq<u8>) -> Option<bool>;

/// The capture spans the compiled matcher for `pattern` reports when
/// searching `text` (given as its UTF-8 bytes) truncated at byte `end`,
/// scanning for the first match that starts at or after byte `begin`:
/// `None` when there is no such match or the engine fails internally.
/// Index 0 of the spans is the whole match. The outcome is a function of
/// the arguments alone.
pub uninterp spec fn search_of(
    pattern: Seq<char>,
    text: Seq<u8>,
    begin: int,
    end: int,
) -> Option<Seq<Option<(usize, usize)>>>;

/// A compiled matcher, paired with the pattern text it was built from.
pub(crate) struct CompiledRegex {
    matcher: Matcher,
    pattern: String,
}

impl CompiledRegex {
    pub(crate) closed spec fn pattern_view(&self) -> Seq<char> {
        self.pattern@
    }
}

/// Relies on `fancy_regex::Regex::new`: it parses and compiles the pattern,
/// returning `Ok` exactly when the engine accepts it. The matcher stored
/// here is always the one compiled from the pattern stored beside it.
#[verifier::external_body]
pub(crate) fn try_build(pattern: &str) -> (r: Option<CompiledRegex>)
    ensures
        (r is Some) == compile_ok(pattern@),
        r matches Some(c) ==> c.pattern_view() == pattern@,
{
    match fancy_regex::Regex::new(pattern) {
        Ok(inner) => Some(CompiledRegex { matcher: Matcher { inner }, pattern: pattern.to_owned() }),
        Err(_) => None,
    }
}

/// Relies on `fancy_regex::Regex::is_match`: `Ok(true)` exactly when the
/// pattern matches somewhere in `text`, `Err` on internal engine failure
/// (such as exceeding the backtracking limit).
#[verifier::external_body]
pub(crate) fn matcher_is_match(c: &CompiledRegex, text: &str) -> (r: Result<
    bool,
    fancy_regex::Error,
>)
    ensures
        (r is Ok) == (is_match_of(c.pattern_view(), text.spec_bytes()) is Some),
        r matches Ok(b) ==> Some(b) == is_match_of(c.pattern_view(), text.spec_bytes()),
{
    c.matcher.inner.is_match(text)
}

/// The capture groups of one match, opaque to the verifier. (The engine's
/// `Captures` type cannot be declared to Verus here: its generic parameter is
/// bounded by an engine trait, which a declaration cannot repeat.)
#[verifier::external_body]
pub(crate) struct CaptureSet<'t> {
    inner: fancy_regex::Captures<'t, str>,
}

/// The capture spans held by a `CaptureSet`: index 0 is the whole match, and
/// a group that did not participate in the match holds `None`.
pub uninterp spec fn captures_of(c: CaptureSet) -> Seq<Option<(usize, usize)>>;

/// Every present span is an ordered byte range lying within the first `end`
/// bytes of the searched text.
pub open spec fn span_bounds(spans: Seq<Option<(usize, usize)>>, end: int) -> bool {
    forall|i: int|
        0 <= i < spans.len() ==> (#[trigger] spans[i] matches Some(span) ==> span.0 <= span.1
            <= end)
}

/// Relies on `fancy_regex::Regex::captures_from_pos`, applied to the text
/// truncated at byte `end` (a char boundary at or before the text's end, so
/// the truncation cannot panic): it scans for the first match starting at or
/// after byte `begin`, returning `Ok(Some(..))` on a match, `Ok(None)` when
/// there is none (in particular whenever `begin > end`), and `Err` on
/// internal engine failure.
#[verifier::external_body]
pub(crate) fn matcher_captures<'t>(
    c: &CompiledRegex,
    text: &'t str,
    begin: usize,
    end: usize,
) -> (r: Result<Option<CaptureSet<'t>>, fancy_regex::Error>)
    requires
        end <= text.spec_bytes().len(),
        vstd::utf8::is_char_boundary(text.spec_bytes(), end as int),
        begin <= end ==> vstd::utf8::is_char_boundary(text.spec_bytes(), begin as int),
    ensures
        (r matches Ok(Some(_))) == (search_of(
            c.pattern_view(),
            text.spec_bytes(),
            begin as int,
            end as int,
        ) is Some),
        r matches Ok(Some(caps)) ==> Some(captures_of(caps)) == search_of(
            c.pattern_view(),
            text.spec_bytes(),
            begin as int,
            end as int,
        ),
        r matches Ok(Some(caps)) ==> span_bounds(captures_of(caps), end as int),
{
    match c.matcher.inner.captures_from_pos(&text[..end], begin) {
        Ok(Some(inner)) => Ok(Some(CaptureSet { inner })),
        Ok(None) => Ok(None),
        Err(e) => Err(e),
    }
}

/// Relies on `fancy_regex::Captures::len`: the number of capture groups of
/// the pattern, including the implicit group 0 for the whole match.
#[verifier::external_body]
pub(crate) fn captures_len(caps: &CaptureSet) -> (r: usize)
    ensures
        r == captures_of(*caps).len(),
{
    caps.inner.len()
}

/// Relies on `fancy_regex::Captures::get` and on `Match::start`/`Match::end`:
/// the byte span of the group with the given index, `None` when the group did
/// not participate in the match.
#[verifier::external_body]
pub(crate) fn captures_span(caps: &CaptureSet, index: usize) -> (r: Option<
    (usize, usize),
>)
    requires
        index < captures_of(*caps).len(),
    ensures
        r == captures_of(*caps)[index as int],
{
    caps.inner.get(index).map(|m| (m.start(), m.end()))
}

} // verus!
