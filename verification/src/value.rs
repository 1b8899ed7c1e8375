//! The regex value: source representations, lazy once-only compilation,
//! matching, equality and (de)serialization.

use vstd::prelude::*;

verus! {

use vstd::string::*;
use vstd::utf8::is_char_boundary;
use std::sync::Arc;
use crate::engine::{
    CaptureSet, CompiledRegex, ExprTree, RegexError, captures_len, captures_of, captures_span,
    compile_ok, decode_blob, decoded_pattern_of, encoded_tree_of, is_match_of, matcher_captures,
    matcher_is_match, parse_of, parse_pattern, search_of, span_bounds, trees_equal, try_build,
};
use crate::region::Region;

/// The source representation a regex value currently holds, as a
/// mathematical value: pattern text as its characters, an encoded blob as
/// its bytes, or a parsed tree as the pattern it was parsed from.
pub enum Source {
    Pattern(Seq<char>),
    Blob(Seq<u8>),
    Tree(Seq<char>),
}

/// The pattern a source resolves to, if it resolves: pattern text must
/// parse, a blob must decode (through the codec) to a pattern that parses,
/// and a tree already carries its pattern.
pub open spec fn source_pattern(s: Source) -> Option<Seq<char>> {
    match s {
        Source::Pattern(p) => if parse_of(p) is Some {
            Some(p)
        } else {
            None
        },
        Source::Blob(b) => match decoded_pattern_of(b) {
            Some(p) => if parse_of(p) is Some {
                Some(p)
            } else {
                None
            },
            None => None,
        },
        Source::Tree(p) => Some(p),
    }
}

/// The structural identity of the expression tree a source resolves to.
pub open spec fn resolved_tree(s: Source) -> Option<int> {
    match source_pattern(s) {
        Some(p) => parse_of(p),
        None => None,
    }
}

/// The error reported when a source fails to resolve: unparseable pattern
/// text is an invalid pattern, an undecodable blob is a corrupt encoding.
pub open spec fn source_error(s: Source) -> RegexError {
    match s {
        Source::Pattern(_) => RegexError::InvalidPattern,
        _ => RegexError::CorruptEncoding,
    }
}

enum RegexSource {
    Pattern(String),
    Binary(Vec<u8>),
    Tree(ExprTree),
}

impl View for RegexSource {
    type V = Source;

    closed spec fn view(&self) -> Source {
        match self {
            RegexSource::Pattern(p) => Source::Pattern(p@),
            RegexSource::Binary(b) => Source::Blob(b@),
            RegexSource::Tree(t) => Source::Tree(t@),
        }
    }
}

#[verifier::external_type_specification]
#[verifier::external_body]
#[verifier::reject_recursive_types(T)]
pub struct ExOnceCell<T>(once_cell::sync::OnceCell<T>);

/// Relies on `once_cell::sync::OnceCell::new`: a new, empty cell.
#[verifier::external_body]
fn new_cell() -> once_cell::sync::OnceCell<CompiledRegex> {
    once_cell::sync::OnceCell::new()
}

/// Relies on `std::sync::Arc::clone`: the result is a new handle to the
/// same shared source, so cloning a value is cheap whatever its source
/// holds.
#[verifier::external_body]
fn share_source(source: &Arc<RegexSource>) -> (r: Arc<RegexSource>)
    ensures
        r == *source,
{
    Arc::clone(source)
}

/// Relies on the `std::ops::Deref` impl of `std::sync::Arc`: a reference to
/// the shared source.
#[verifier::external_body]
fn source_ref(source: &Arc<RegexSource>) -> (r: &RegexSource)
    ensures
        *r == **source,
{
    &**source
}

/// An abstraction for regex patterns.
///
/// * The regex engine is confined to the [`engine`](crate::engine) boundary,
///   so it can be swapped without touching callers.
/// * A value is serializable and deserializable through the encoding of its
///   expression tree.
/// * The regex is compiled lazily, on first use, to keep construction and
///   deserialization cheap.
pub struct Regex {
    source: Arc<RegexSource>,
    cache: once_cell::sync::OnceCell<CompiledRegex>,
}

impl View for Regex {
    type V = Source;

    closed spec fn view(&self) -> Source {
        self.source@
    }
}

/// Resolve a source into its expression tree: parse pattern text or decode
/// a blob as needed; a tree is returned as it stands.
fn resolve_source(source: &RegexSource) -> (r: Result<ExprTree, RegexError>)
    ensures
        (r is Ok) == (source_pattern(source@) is Some),
        r matches Ok(t) ==> Some(t@) == source_pattern(source@),
        r matches Err(e) ==> e == source_error(source@),
{
    match source {
        RegexSource::Pattern(p) => match parse_pattern(p.as_str()) {
            Ok(t) => Ok(t),
            Err(_) => Err(RegexError::InvalidPattern),
        },
        RegexSource::Binary(b) => match decode_blob(b.as_slice()) {
            Some(s) => match parse_pattern(s.as_str()) {
                Ok(t) => Ok(t),
                Err(_) => Err(RegexError::CorruptEncoding),
            },
            None => Err(RegexError::CorruptEncoding),
        },
        RegexSource::Tree(t) => Ok(t.clone()),
    }
}

/// Compile the matcher for a source that is known to resolve and compile.
fn compile_source(source: &RegexSource) -> (r: CompiledRegex)
    requires
        source_pattern(source@) matches Some(p) && compile_ok(p),
    ensures
        source_pattern(source@) matches Some(p) ==> r.pattern_view() == p,
{
    match resolve_source(source) {
        Ok(tree) => match try_build(tree.pattern_str()) {
            Some(c) => c,
            None => {
                proof {
                    assert(false);
                }
                vstd::pervasive::unreached()
            },
        },
        Err(_) => {
            proof {
                assert(false);
            }
            vstd::pervasive::unreached()
        },
    }
}

impl Regex {
    /// Create a new regex from the pattern string.
    ///
    /// The regex is compiled on first use, which is why this method does not
    /// return a result; validate patterns with [`Regex::try_compile`] before
    /// storing them.
    pub fn new(pattern: String) -> (r: Self)
        ensures
            r@ == Source::Pattern(pattern@),
    {
        Regex { source: Arc::new(RegexSource::Pattern(pattern)), cache: new_cell() }
    }

    /// Deserialize a new regex from the bytes of an encoded expression tree.
    ///
    /// Decoding is deferred until the value is used.
    pub fn deserialize(binary: Vec<u8>) -> (r: Self)
        ensures
            r@ == Source::Blob(binary@),
    {
        Regex { source: Arc::new(RegexSource::Binary(binary)), cache: new_cell() }
    }

    /// Create a new regex from an already-parsed expression tree.
    pub fn from_expr_tree(tree: ExprTree) -> (r: Self)
        ensures
            r@ == Source::Tree(tree@),
    {
        Regex { source: Arc::new(RegexSource::Tree(tree)), cache: new_cell() }
    }

    /// Check whether the pattern parses and compiles as a valid regex,
    /// without caching anything: `None` on success, the error otherwise.
    pub fn try_compile(pattern: &str) -> (r: Option<RegexError>)
        ensures
            (r is None) == (parse_of(pattern@) is Some && compile_ok(pattern@)),
            r matches Some(e) ==> e == RegexError::InvalidPattern,
    {
        match parse_pattern(pattern) {
            Ok(_) => match try_build(pattern) {
                Some(_) => None,
                None => Some(RegexError::InvalidPattern),
            },
            Err(_) => Some(RegexError::InvalidPattern),
        }
    }

    /// Get the expression tree of this value, parsing its pattern text or
    /// decoding its blob as needed.
    pub fn expr_tree(&self) -> (r: Result<ExprTree, RegexError>)
        ensures
            (r is Ok) == (source_pattern(self@) is Some),
            r matches Ok(t) ==> Some(t@) == source_pattern(self@),
            r matches Err(e) ==> e == source_error(self@),
    {
        resolve_source(source_ref(&self.source))
    }

    /// Relies on `once_cell::sync::OnceCell::get_or_init`: at most one
    /// caller runs the initializer, every caller gets the value stored by
    /// the one that won, and later calls reuse it without synchronizing.
    /// The cell of a value is only ever initialized here, with the matcher
    /// compiled from the value's own source, so the stored matcher is
    /// always the one for the value's resolved pattern.
    #[verifier::external_body]
    fn compiled(&self) -> (r: &CompiledRegex)
        requires
            source_pattern(self@) matches Some(p) && compile_ok(p),
        ensures
            source_pattern(self@) matches Some(p) ==> r.pattern_view() == p,
    {
        self.cache.get_or_init(|| compile_source(&self.source))
    }

    /// Whether this value has already compiled (and cached) its matcher.
    ///
    /// Relies on `once_cell::sync::OnceCell::get`. This is an observation
    /// point for the lazy, once-only compilation; the cell's state is not
    /// modeled, so nothing is promised of the result.
    #[verifier::external_body]
    pub fn is_compiled(&self) -> bool {
        self.cache.get().is_some()
    }

    /// Check if the regex matches the given text.
    ///
    /// Compiles on first use; the pattern must have been validated with
    /// [`Regex::try_compile`] beforehand. An internal engine failure during
    /// the search (for example a backtracking limit) is reported as "no
    /// match".
    pub fn is_match(&self, text: &str) -> (r: bool)
        requires
            source_pattern(self@) matches Some(p) && compile_ok(p),
        ensures
            source_pattern(self@) matches Some(p) ==> r == (is_match_of(p, text.spec_bytes())
                == Some(true)),
    {
        let c = self.compiled();
        match matcher_is_match(c, text) {
            Ok(b) => b,
            Err(_) => false,
        }
    }

    /// Search for the pattern in `text`, truncated at byte `end`, for the
    /// first match starting at or after byte `begin`.
    ///
    /// With this engine `end` bounds the whole match, not just its start:
    /// the text is truncated there before the scan. If a region is passed,
    /// a match overwrites it with the new capture positions; on "no match"
    /// the region keeps its previous contents. Compiles on first use; the
    /// pattern must have been validated with [`Regex::try_compile`]. An
    /// internal engine failure is reported as "no match".
    pub fn search(&self, text: &str, begin: usize, end: usize, region: Option<&mut Region>) -> (r:
        bool)
        requires
            source_pattern(self@) matches Some(p) && compile_ok(p),
            end <= text.spec_bytes().len(),
            is_char_boundary(text.spec_bytes(), end as int),
            begin <= end ==> is_char_boundary(text.spec_bytes(), begin as int),
        ensures
            source_pattern(self@) matches Some(p) ==> r == (search_of(
                p,
                text.spec_bytes(),
                begin as int,
                end as int,
            ) is Some),
            source_pattern(self@) matches Some(p) ==> (match search_of(
                p,
                text.spec_bytes(),
                begin as int,
                end as int,
            ) {
                Some(spans) => span_bounds(spans, end as int),
                None => true,
            }),
            region matches Some(rg) ==> (source_pattern(self@) matches Some(p) && (match search_of(
                p,
                text.spec_bytes(),
                begin as int,
                end as int,
            ) {
                Some(spans) => final(rg)@ == spans,
                None => final(rg)@ == rg@,
            })),
    {
        let c = self.compiled();
        match matcher_captures(c, text, begin, end) {
            Ok(Some(caps)) => {
                match region {
                    Some(rg) => {
                        fill_region(rg, &caps);
                    },
                    None => {},
                }
                true
            },
            _ => false,
        }
    }

    /// Like [`Regex::is_match`], but checks instead of requiring: `None`
    /// exactly when the value's source does not resolve to a pattern the
    /// engine compiles.
    pub fn try_is_match(&self, text: &str) -> (r: Option<bool>)
        ensures
            (r is Some) == (source_pattern(self@) matches Some(p) && compile_ok(p)),
            r matches Some(b) ==> (source_pattern(self@) matches Some(p) && b == (is_match_of(
                p,
                text.spec_bytes(),
            ) == Some(true))),
    {
        match self.expr_tree() {
            Ok(tree) => match try_build(tree.pattern_str()) {
                Some(_) => Some(self.is_match(text)),
                None => None,
            },
            Err(_) => None,
        }
    }

    /// Like [`Regex::search`], but checks instead of requiring: `None` when
    /// the value's source does not resolve to a pattern the engine compiles,
    /// or when `begin`/`end` do not lie on character boundaries of `text`.
    pub fn try_search(&self, text: &str, begin: usize, end: usize, region: Option<&mut Region>)
        -> (r: Option<bool>)
        ensures
            (r is Some) == (source_pattern(self@) matches Some(p) && compile_ok(p) && end
                <= text.spec_bytes().len() && is_char_boundary(text.spec_bytes(), end as int) && (
            begin <= end ==> is_char_boundary(text.spec_bytes(), begin as int))),
            r matches Some(b) ==> (source_pattern(self@) matches Some(p) && b == (search_of(
                p,
                text.spec_bytes(),
                begin as int,
                end as int,
            ) is Some)),
            r is Some ==> (source_pattern(self@) matches Some(p) && (match search_of(
                p,
                text.spec_bytes(),
                begin as int,
                end as int,
            ) {
                Some(spans) => span_bounds(spans, end as int),
                None => true,
            })),
            region matches Some(rg) ==> (if r is None {
                final(rg)@ == rg@
            } else {
                source_pattern(self@) matches Some(p) && (match search_of(
                    p,
                    text.spec_bytes(),
                    begin as int,
                    end as int,
                ) {
                    Some(spans) => final(rg)@ == spans,
                    None => final(rg)@ == rg@,
                })
            }),
    {
        let bounds_ok = end <= text.as_bytes().len() && text.is_char_boundary(end) && (if begin
            <= end {
            text.is_char_boundary(begin)
        } else {
            true
        });
        if !bounds_ok {
            return None;
        }
        match self.expr_tree() {
            Ok(tree) => match try_build(tree.pattern_str()) {
                Some(_) => Some(self.search(text, begin, end, region)),
                None => None,
            },
            Err(_) => None,
        }
    }

    /// Serialize the value to the encoding of its expression tree.
    ///
    /// Whichever form the value currently holds, the emitted bytes are the
    /// codec's encoding of its tree — pattern text is parsed first, a blob
    /// is decoded and re-encoded — so the persisted form does not depend on
    /// the source representation. This engine offers no serialization of
    /// its trees, so the codec frames the pattern text a tree carries: two
    /// structurally equal trees parsed from different texts persist to
    /// different (equally valid) encodings, and loading either yields an
    /// equal value.
    pub fn serialize(&self) -> (r: Result<Vec<u8>, RegexError>)
        ensures
            (r is Ok) == (source_pattern(self@) is Some),
            r matches Ok(b) ==> (source_pattern(self@) matches Some(p) && b@ == encoded_tree_of(p)
                && decoded_pattern_of(b@) == Some(p)),
            r matches Err(e) ==> e == source_error(self@),
    {
        match resolve_source(source_ref(&self.source)) {
            Ok(tree) => Ok(tree.encode()),
            Err(e) => Err(e),
        }
    }
}

/// Overwrite the region with the capture spans of one match.
fn fill_region(region: &mut Region, caps: &CaptureSet)
    ensures
        final(region)@ == captures_of(*caps),
{
    let n = captures_len(caps);
    let mut positions: Vec<Option<(usize, usize)>> = Vec::new();
    let mut i: usize = 0;
    while i < n
        invariant
            n == captures_of(*caps).len(),
            i <= n,
            positions@ == captures_of(*caps).take(i as int),
        decreases n - i,
    {
        positions.push(captures_span(caps, i));
        proof {
            assert(captures_of(*caps).take(i + 1) =~= captures_of(*caps).take(i as int).push(
                captures_of(*caps)[i as int],
            ));
        }
        i += 1;
    }
    proof {
        assert(captures_of(*caps).take(n as int) =~= captures_of(*caps));
    }
    region.set_positions(positions);
}

impl Clone for Regex {
    /// A clone shares the same source (the handle is cheap to copy) but has
    /// its own compilation slot: a clone taken before first use compiles
    /// independently of the original.
    fn clone(&self) -> (r: Self)
        ensures
            r@ == self@,
    {
        Regex { source: share_source(&self.source), cache: new_cell() }
    }
}

impl PartialEq for Regex {
    /// Two regex values are equal exactly when both resolve and their
    /// expression trees are structurally equal, whatever form each side
    /// currently holds: both sides are resolved to trees before comparison.
    /// A value whose source does not resolve is equal to nothing.
    fn eq(&self, other: &Regex) -> (r: bool) {
        match (self.expr_tree(), other.expr_tree()) {
            (Ok(a), Ok(b)) => {
                proof {
                    use_type_invariant(&a);
                    use_type_invariant(&b);
                }
                trees_equal(&a, &b)
            },
            _ => false,
        }
    }
}

impl vstd::std_specs::cmp::PartialEqSpecImpl for Regex {
    open spec fn obeys_eq_spec() -> bool {
        true
    }

    open spec fn eq_spec(&self, other: &Regex) -> bool {
        resolved_tree(self@) is Some && resolved_tree(self@) == resolved_tree(other@)
    }
}


} // verus!
