//! The calls that leave this library: regular expressions, shell quoting and
//! Unicode case mapping. Their contracts are taken on trust.

use vstd::prelude::*;

verus! {

/// Whether a regular expression finds a match anywhere in a text: `None`
/// where the pattern is no regular expression that the engine accepts.
pub uninterp spec fn regex_is_match(pattern: Seq<char>, text: Seq<char>) -> Option<bool>;

/// The first match of a regular expression in a text, as the texts of its
/// capture groups from group 0 on, with `None` for a group that took no part:
/// `None` where nothing matches or the pattern is not accepted.
pub uninterp spec fn regex_captures(pattern: Seq<char>, text: Seq<char>) -> Option<
    Seq<Option<Seq<char>>>,
>;

/// All successive matches of a regular expression in a text, from left to
/// right and never overlapping, each as the texts of its capture groups:
/// `None` where the pattern is not accepted.
pub uninterp spec fn regex_all_captures(pattern: Seq<char>, text: Seq<char>) -> Option<
    Seq<Seq<Option<Seq<char>>>>,
>;

/// The words joined into one shell command line, each quoted as needed.
pub uninterp spec fn shell_joined(words: Seq<Seq<char>>) -> Seq<char>;

/// The lowercase form of a text under the Unicode case mapping.
pub uninterp spec fn lowercase(text: Seq<char>) -> Seq<char>;

/// Compiles `pattern` with `regex::Regex::new` and asks `Regex::is_match`
/// whether it matches in `text`. The answer depends on the two texts alone.
#[verifier::external_body]
pub(crate) fn is_match(pattern: &str, text: &str) -> (r: Option<bool>)
    ensures
        r == regex_is_match(pattern@, text@),
{
    match regex::Regex::new(pattern) {
        Ok(re) => Some(re.is_match(text)),
        Err(_) => None,
    }
}

/// Compiles `pattern` with `regex::Regex::new` and takes the first match in
/// `text` from `Regex::captures`, one entry for each capture group. The
/// answer depends on the two texts alone.
#[verifier::external_body]
pub(crate) fn captures(pattern: &str, text: &str) -> (r: Option<Vec<Option<String>>>)
    ensures
        r.deep_view() == regex_captures(pattern@, text@),
{
    match regex::Regex::new(pattern) {
        Ok(re) => re.captures(text).map(
            |c| c.iter().map(|m| m.map(|m| m.as_str().to_string())).collect(),
        ),
        Err(_) => None,
    }
}

/// Compiles `pattern` with `regex::Regex::new` and walks the matches that
/// `Regex::captures_iter` yields in `text`, one entry for each capture group
/// of each match. The answer depends on the two texts alone.
#[verifier::external_body]
pub(crate) fn all_captures(pattern: &str, text: &str) -> (r: Option<Vec<Vec<Option<String>>>>)
    ensures
        r.deep_view() == regex_all_captures(pattern@, text@),
{
    match regex::Regex::new(pattern) {
        Ok(re) => Some(
            re.captures_iter(text).map(
                |c| c.iter().map(|m| m.map(|m| m.as_str().to_string())).collect(),
            ).collect(),
        ),
        Err(_) => None,
    }
}

/// `shell_words::join`: the words quoted for a Unix shell and joined by single
/// spaces. How a word is quoted is left to that crate.
#[verifier::external_body]
pub(crate) fn shell_join(words: &[String]) -> (r: String)
    ensures
        r@ == shell_joined(words.deep_view()),
{
    shell_words::join(words)
}

/// `str::to_lowercase`: the text in lowercase.
#[verifier::external_body]
pub(crate) fn to_lowercase(text: &str) -> (r: String)
    ensures
        r@ == lowercase(text@),
{
    text.to_lowercase()
}

/// How a span of so many milliseconds is written out for a reader, as in
/// `1.5s` or `250ms`.
pub uninterp spec fn duration_text(millis: u64) -> Seq<char>;

/// `std::time::Duration::from_millis` and the `Debug` form of the span that
/// it gives. The text depends on the number alone.
#[verifier::external_body]
pub(crate) fn format_duration(millis: u64) -> (r: String)
    ensures
        r@ == duration_text(millis),
{
    format!("{:?}", std::time::Duration::from_millis(millis))
}

} // verus!
