use unicode_segmentation::UnicodeSegmentation;
use vstd::prelude::*;

verus! {

/// The unit a model reads its input in.
#[derive(Debug, Clone, Copy, PartialEq, Eq, Structural)]
pub enum Granularity {
    /// One token per Unicode code point.
    CodePoints,
    /// One token per extended grapheme cluster.
    GraphemeClusters,
}

/// Whether `needle` occurs as a contiguous part of `hay`.
pub open spec fn contains_seq(hay: Seq<char>, needle: Seq<char>) -> bool {
    exists|i: int|
        0 <= i && i + needle.len() <= hay.len() && #[trigger] hay.subrange(i, i + needle.len())
            == needle
}

/// The granularity that a model's name declares: code points where the name
/// contains `codepoints`, else grapheme clusters where it contains
/// `graphclust`, else none.
pub open spec fn granularity_of(name: Seq<char>) -> Option<Granularity> {
    if contains_seq(name, "codepoints"@) {
        Some(Granularity::CodePoints)
    } else if contains_seq(name, "graphclust"@) {
        Some(Granularity::GraphemeClusters)
    } else {
        None
    }
}

/// The extended grapheme clusters of a text, in order, as Unicode's text
/// segmentation rules cut it.
pub uninterp spec fn graphemes_of(s: Seq<char>) -> Seq<Seq<char>>;

/// The tokens of `s` at granularity `g`.
pub open spec fn tokens_of(g: Granularity, s: Seq<char>) -> Seq<Seq<char>> {
    match g {
        Granularity::CodePoints => s.map_values(|c: char| seq![c]),
        Granularity::GraphemeClusters => graphemes_of(s),
    }
}

/// The number of tokens of `s` at granularity `g`.
pub open spec fn token_count(g: Granularity, s: Seq<char>) -> nat {
    tokens_of(g, s).len()
}

/// Relies on `str::contains`: true exactly when the pattern matches a
/// sub-slice of the text.
#[verifier::external_body]
fn str_contains(hay: &str, needle: &str) -> (r: bool)
    ensures
        r == contains_seq(hay@, needle@),
{
    hay.contains(needle)
}

/// Relies on `char::to_string`: the string of the one character.
#[verifier::external_body]
fn char_string(c: char) -> (r: String)
    ensures
        r@ == seq![c],
{
    c.to_string()
}

/// Relies on `UnicodeSegmentation::graphemes` with extended clusters: the
/// clusters in order, none for an empty text and at least one otherwise.
#[verifier::external_body]
fn extended_graphemes(s: &str) -> (r: Vec<&str>)
    ensures
        r@.map_values(|g: &str| g@) == graphemes_of(s@),
        (r@.len() == 0) == (s@.len() == 0),
{
    UnicodeSegmentation::graphemes(s, true).collect()
}

/// The granularity that the model name `name` declares, or `Syntax` where
/// it declares none.
pub fn granularity(name: &str) -> (r: Result<Granularity, crate::error::Error>)
    ensures
        r == (match granularity_of(name@) {
            Some(g) => Ok(g),
            None => Err(crate::error::Error::Syntax),
        }),
{
    if str_contains(name, "codepoints") {
        Ok(Granularity::CodePoints)
    } else if str_contains(name, "graphclust") {
        Ok(Granularity::GraphemeClusters)
    } else {
        Err(crate::error::Error::Syntax)
    }
}

/// The code points of `s`, each as a string of its own.
pub fn code_point_tokens(s: &str) -> (r: Vec<String>)
    ensures
        r@.map_values(|t: String| t@) == tokens_of(Granularity::CodePoints, s@),
{
    let mut r: Vec<String> = Vec::new();
    for c in it: s.chars()
        invariant
            it.seq() == s@,
            r@.len() == it.index(),
            forall|k: int| 0 <= k < r@.len() ==> #[trigger] r@[k]@ == seq![s@[k]],
    {
        r.push(char_string(c));
    }
    assert(r@.map_values(|t: String| t@) =~= tokens_of(Granularity::CodePoints, s@));
    r
}

/// The extended grapheme clusters of `s`.
pub fn grapheme_tokens(s: &str) -> (r: Vec<&str>)
    ensures
        r@.map_values(|t: &str| t@) == tokens_of(Granularity::GraphemeClusters, s@),
        (r@.len() == 0) == (s@.len() == 0),
{
    extended_graphemes(s)
}

} // verus!
