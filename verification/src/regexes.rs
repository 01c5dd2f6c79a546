//! Regular-expression literals of a request-key program.
//!
//! Matching and replacement are done by the `regex` crate.  What a pattern
//! matches and what a replacement produces is named, not restated: the names
//! below stand for the engine's results as functions of the pattern, the
//! replacement string and the text, which is all the surrounding contracts
//! need.

use vstd::prelude::*;
use vstd::string::*;

use crate::replacement::{fix_js_replacement, normalize_replacement};

verus! {

#[verifier::external_type_specification]
#[verifier::external_body]
pub struct ExRegex(regex::Regex);

/// Whether the regex engine accepts `pattern`.
pub uninterp spec fn regex_compiles(pattern: Seq<char>) -> bool;

/// Whether `pattern` matches somewhere in `text`.
pub uninterp spec fn regex_match(pattern: Seq<char>, text: Seq<char>) -> bool;

/// Number of capture groups of `pattern`, the implicit whole-match group
/// included.
pub uninterp spec fn regex_capture_count(pattern: Seq<char>) -> nat;

/// Result of replacing the first match of `pattern` in `text` with `rep`.
pub uninterp spec fn regex_replace_first(
    pattern: Seq<char>,
    rep: Seq<char>,
    text: Seq<char>,
) -> Seq<char>;

/// Result of replacing every match of `pattern` in `text` with `rep`.
pub uninterp spec fn regex_replace_all(
    pattern: Seq<char>,
    rep: Seq<char>,
    text: Seq<char>,
) -> Seq<char>;

/// A compiled pattern together with its source text.
struct CompiledRegex {
    regex: regex::Regex,
    pattern: String,
}

impl CompiledRegex {
    /// Relies on regex::Regex::new: compilation succeeds or fails on the
    /// pattern alone.
    #[verifier::external_body]
    fn compile(pattern: &str) -> (r: Option<CompiledRegex>)
        ensures
            r is Some <==> regex_compiles(pattern@),
            r matches Some(c) ==> c.pattern@ == pattern@,
    {
        match regex::Regex::new(pattern) {
            Ok(regex) => Some(CompiledRegex { regex, pattern: pattern.to_owned() }),
            Err(_) => None,
        }
    }

    /// Relies on regex::Regex::is_match: the result depends on the pattern
    /// and the haystack alone.
    #[verifier::external_body]
    fn is_match(&self, text: &str) -> (r: bool)
        ensures
            r == regex_match(self.pattern@, text@),
    {
        self.regex.is_match(text)
    }

    /// Relies on regex::Regex::captures_len: the count depends on the pattern
    /// alone and includes the implicit whole-match group, so it is positive.
    #[verifier::external_body]
    fn capture_count(&self) -> (r: usize)
        ensures
            r as nat == regex_capture_count(self.pattern@),
            r >= 1,
    {
        self.regex.captures_len()
    }

    /// Relies on regex::Regex::replace: replaces the first match; the
    /// haystack comes back unchanged and borrowed when nothing matches.
    #[verifier::external_body]
    fn replace_first(&self, text: &str, rep: &str) -> (r: (String, bool))
        ensures
            r.0@ == regex_replace_first(self.pattern@, rep@, text@),
            r.1 == regex_match(self.pattern@, text@),
            !r.1 ==> r.0@ == text@,
    {
        match self.regex.replace(text, rep) {
            std::borrow::Cow::Borrowed(s) => (s.to_owned(), false),
            std::borrow::Cow::Owned(s) => (s, true),
        }
    }

    /// Relies on regex::Regex::replace_all: replaces every match; the
    /// haystack comes back unchanged and borrowed when nothing matches.
    #[verifier::external_body]
    fn replace_all(&self, text: &str, rep: &str) -> (r: (String, bool))
        ensures
            r.0@ == regex_replace_all(self.pattern@, rep@, text@),
            r.1 == regex_match(self.pattern@, text@),
            !r.1 ==> r.0@ == text@,
    {
        match self.regex.replace_all(text, rep) {
            std::borrow::Cow::Borrowed(s) => (s.to_owned(), false),
            std::borrow::Cow::Owned(s) => (s, true),
        }
    }
}

/// A `Match` literal: a pattern used only as a test.
pub struct RegexTest {
    rx: CompiledRegex,
}

impl View for RegexTest {
    type V = Seq<char>;

    closed spec fn view(&self) -> Seq<char> {
        self.rx.pattern@
    }
}

impl RegexTest {
    /// Compiles a test pattern; an unacceptable pattern is a load error.
    pub fn new(pattern: &str) -> (r: Option<RegexTest>)
        ensures
            r is Some <==> regex_compiles(pattern@),
            r matches Some(t) ==> t@ == pattern@,
    {
        match CompiledRegex::compile(pattern) {
            Some(rx) => Some(RegexTest { rx }),
            None => None,
        }
    }

    /// Whether the pattern matches somewhere in `text`.
    pub fn is_match(&self, text: &str) -> (r: bool)
        ensures
            r == regex_match(self@, text@),
    {
        self.rx.is_match(text)
    }
}

/// Mathematical model of a `Replace` or `ReplaceAll` literal.
#[verifier::ext_equal]
pub ghost struct RegexReplaceView {
    pub pattern: Seq<char>,
    pub replacement: Seq<char>,
}

/// A `Replace` or `ReplaceAll` literal: a pattern plus a replacement string,
/// the latter stored in its normalized brace form.
pub struct RegexReplace {
    rx: CompiledRegex,
    replacement: String,
}

impl View for RegexReplace {
    type V = RegexReplaceView;

    closed spec fn view(&self) -> RegexReplaceView {
        RegexReplaceView { pattern: self.rx.pattern@, replacement: self.replacement@ }
    }
}

impl RegexReplace {
    /// Compiles a replacement pattern and normalizes the raw replacement text
    /// against the pattern's capture-group count.
    pub fn new(pattern: &str, raw_replacement: &str) -> (r: Option<RegexReplace>)
        ensures
            r is Some <==> regex_compiles(pattern@),
            r matches Some(t) ==> t@.pattern == pattern@ && t@.replacement
                == normalize_replacement(raw_replacement@, regex_capture_count(pattern@)),
    {
        match CompiledRegex::compile(pattern) {
            Some(rx) => {
                let count = rx.capture_count();
                let replacement = fix_js_replacement(raw_replacement, count);
                Some(RegexReplace { rx, replacement })
            },
            None => None,
        }
    }

    /// Replaces the first match in `text`; the flag says whether anything
    /// matched, in which case the result is the rewritten text.
    pub fn replace(&self, text: &str) -> (r: (String, bool))
        ensures
            r.0@ == regex_replace_first(self@.pattern, self@.replacement, text@),
            r.1 == regex_match(self@.pattern, text@),
            !r.1 ==> r.0@ == text@,
    {
        self.rx.replace_first(text, self.replacement.as_str())
    }

    /// Replaces every match in `text`; the flag says whether anything
    /// matched, in which case the result is the rewritten text.
    pub fn replace_all(&self, text: &str) -> (r: (String, bool))
        ensures
            r.0@ == regex_replace_all(self@.pattern, self@.replacement, text@),
            r.1 == regex_match(self@.pattern, text@),
            !r.1 ==> r.0@ == text@,
    {
        self.rx.replace_all(text, self.replacement.as_str())
    }
}

} // verus!
