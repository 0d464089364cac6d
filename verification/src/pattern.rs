//! The pattern library: the three built-in detectors and the calls into the
//! regular-expression engine that every pattern, built-in or user-defined,
//! goes through.
//!
//! The engine is the `regex` crate. What it computes is not defined here; it
//! is named ([`regex_compiles`], [`regex_is_match`], [`regex_replace_all`]) and
//! the contracts of this library are stated over those names. Patterns are
//! handed to the engine as text and compiled at each use, so no compiled
//! expression is held between calls.
//!
//! A pattern that the engine does not accept finds nothing and replaces
//! nothing. That holds of the built-in patterns too; [`check_detectors`]
//! tells an application at start-up whether they are all accepted.

use regex::Regex;
use vstd::prelude::*;

verus! {

/// Whether `Regex::new` accepts `pattern`.
pub uninterp spec fn regex_compiles(pattern: Seq<char>) -> bool;

/// What `Regex::is_match` answers for `haystack`, on the expression compiled
/// from `pattern`. Meaningful only where `regex_compiles(pattern)`.
pub uninterp spec fn regex_is_match(pattern: Seq<char>, haystack: Seq<char>) -> bool;

/// What `Regex::replace_all` returns for `haystack` and the replacement string
/// `replacement`, on the expression compiled from `pattern`. Meaningful only
/// where `regex_compiles(pattern)`.
pub uninterp spec fn regex_replace_all(
    pattern: Seq<char>,
    haystack: Seq<char>,
    replacement: Seq<char>,
) -> Seq<char>;

/// Calls `regex::Regex::new` and reports whether it returned `Ok`.
///
/// Trusted: the answer is the one named by [`regex_compiles`].
#[verifier::external_body]
pub(crate) fn engine_compiles(pattern: &str) -> (ok: bool)
    ensures
        ok == regex_compiles(pattern@),
{
    Regex::new(pattern).is_ok()
}

/// Compiles `pattern` with `regex::Regex::new` and calls `Regex::is_match` on
/// the result; `None` when the pattern does not compile.
///
/// Trusted: `Some` comes back exactly for the patterns that compile, and it
/// holds the answer named by [`regex_is_match`].
#[verifier::external_body]
pub(crate) fn engine_is_match(pattern: &str, haystack: &str) -> (found: Option<bool>)
    ensures
        found.is_some() == regex_compiles(pattern@),
        found matches Some(b) ==> b == regex_is_match(pattern@, haystack@),
{
    match Regex::new(pattern) {
        Ok(re) => Some(re.is_match(haystack)),
        Err(_) => None,
    }
}

/// Compiles `pattern` with `regex::Regex::new` and calls `Regex::replace_all`
/// on the result with `replacement` as a replacement string; `None` when the
/// pattern does not compile.
///
/// Trusted: `Some` comes back exactly for the patterns that compile, and it
/// holds the text named by [`regex_replace_all`]. As the engine documents, a
/// haystack without a match is returned unchanged.
#[verifier::external_body]
pub(crate) fn engine_replace_all(
    pattern: &str,
    haystack: &str,
    replacement: &str,
) -> (out: Option<String>)
    ensures
        out.is_some() == regex_compiles(pattern@),
        out matches Some(s) ==> s@ == regex_replace_all(pattern@, haystack@, replacement@),
        out matches Some(s) ==> !regex_is_match(pattern@, haystack@) ==> s@ == haystack@,
{
    match Regex::new(pattern) {
        Ok(re) => Some(re.replace_all(haystack, replacement).into_owned()),
        Err(_) => None,
    }
}

/// A pattern finds something in `text`: it compiles and has a match.
pub open spec fn pattern_found(pattern: Seq<char>, text: Seq<char>) -> bool {
    regex_compiles(pattern) && regex_is_match(pattern, text)
}

/// `text` after every match of `pattern` has been replaced by `replacement`.
/// A pattern that does not compile, or that finds nothing, leaves the text as
/// it is.
pub open spec fn pattern_replaced(
    pattern: Seq<char>,
    text: Seq<char>,
    replacement: Seq<char>,
) -> Seq<char> {
    if pattern_found(pattern, text) {
        regex_replace_all(pattern, text, replacement)
    } else {
        text
    }
}

/// Reports whether `pattern` compiles and matches somewhere in `text`.
pub fn find(pattern: &str, text: &str) -> (found: bool)
    ensures
        found == pattern_found(pattern@, text@),
{
    match engine_is_match(pattern, text) {
        Some(b) => b,
        None => false,
    }
}

/// Replaces every match of `pattern` in `text` by `replacement`. A pattern
/// that does not compile is skipped: the text comes back unchanged.
pub fn substitute(pattern: &str, text: String, replacement: &str) -> (out: String)
    ensures
        out@ == pattern_replaced(pattern@, text@, replacement@),
{
    match engine_replace_all(pattern, text.as_str(), replacement) {
        Some(s) => s,
        None => text,
    }
}

/// Case-insensitive `local-part@domain.tld`, with a top-level label of two or
/// more letters.
pub const EMAIL_PATTERN: &'static str = r"(?i)[A-Z0-9._%+-]+@[A-Z0-9.-]+\.[A-Z]{2,}";

/// Phone-like digit groups: an optional country code, an optional area code
/// and two or three groups of two to four digits, separated by hyphens or
/// white space. Deliberately permissive.
pub const PHONE_PATTERN: &'static str = r"(?x)
    (?:\+?\d{1,4}[-\s]?)?                 # country code
    (?:\(?\d{2,4}\)?[-\s]?)?             # area code
    (?:\d{2,4}[-\s]?){2,3}                # local number parts
";

/// Six or more consecutive digits.
pub const NUMBER_SEQ_PATTERN: &'static str = r"\d{6,}";

/// What replaces an email address.
pub const EMAIL_PLACEHOLDER: &'static str = "＜メール＞";

/// What replaces a phone-like sequence.
pub const PHONE_PLACEHOLDER: &'static str = "＜電話番号＞";

/// What replaces a long digit run.
pub const NUMBER_SEQ_PLACEHOLDER: &'static str = "＜数列＞";

/// The categories of sensitive spans that the built-in detectors look for.
#[derive(Debug, Clone, Copy, PartialEq, Eq)]
pub enum Category {
    Email,
    Phone,
    NumberSequence,
}

impl Category {
    /// The pattern of this category's detector.
    pub open spec fn pattern_text(self) -> Seq<char> {
        match self {
            Category::Email => EMAIL_PATTERN@,
            Category::Phone => PHONE_PATTERN@,
            Category::NumberSequence => NUMBER_SEQ_PATTERN@,
        }
    }

    /// The placeholder token that stands in for a span of this category.
    pub open spec fn placeholder_text(self) -> Seq<char> {
        match self {
            Category::Email => EMAIL_PLACEHOLDER@,
            Category::Phone => PHONE_PLACEHOLDER@,
            Category::NumberSequence => NUMBER_SEQ_PLACEHOLDER@,
        }
    }

    pub fn pattern(self) -> (p: &'static str)
        ensures
            p@ == self.pattern_text(),
    {
        match self {
            Category::Email => EMAIL_PATTERN,
            Category::Phone => PHONE_PATTERN,
            Category::NumberSequence => NUMBER_SEQ_PATTERN,
        }
    }

    pub fn placeholder(self) -> (p: &'static str)
        ensures
            p@ == self.placeholder_text(),
    {
        match self {
            Category::Email => EMAIL_PLACEHOLDER,
            Category::Phone => PHONE_PLACEHOLDER,
            Category::NumberSequence => NUMBER_SEQ_PLACEHOLDER,
        }
    }
}

/// The detector of `category` finds a span in `text`.
pub open spec fn detects(category: Category, text: Seq<char>) -> bool {
    pattern_found(category.pattern_text(), text)
}

/// `text` with every span of `category` replaced by `placeholder`.
pub open spec fn replaced(
    category: Category,
    text: Seq<char>,
    placeholder: Seq<char>,
) -> Seq<char> {
    pattern_replaced(category.pattern_text(), text, placeholder)
}

/// All three built-in detectors compile. Where this holds, `detects` and
/// `replaced` are what the engine answers for the built-in patterns.
pub open spec fn detectors_ready() -> bool {
    &&& regex_compiles(EMAIL_PATTERN@)
    &&& regex_compiles(PHONE_PATTERN@)
    &&& regex_compiles(NUMBER_SEQ_PATTERN@)
}

/// Compiles the three built-in patterns once and reports whether all of them
/// were accepted. An application calls this at start-up.
pub fn check_detectors() -> (ok: bool)
    ensures
        ok == detectors_ready(),
{
    engine_compiles(EMAIL_PATTERN) && engine_compiles(PHONE_PATTERN)
        && engine_compiles(NUMBER_SEQ_PATTERN)
}

/// Reports whether `text` holds a span of `category`.
pub fn detect_any(category: Category, text: &str) -> (found: bool)
    ensures
        found == detects(category, text@),
{
    find(category.pattern(), text)
}

/// Replaces every span of `category` in `text` by `placeholder`.
pub fn replace_all(category: Category, text: String, placeholder: &str) -> (out: String)
    ensures
        out@ == replaced(category, text@, placeholder@),
        !detects(category, text@) ==> out@ == text@,
{
    substitute(category.pattern(), text, placeholder)
}

} // verus!
