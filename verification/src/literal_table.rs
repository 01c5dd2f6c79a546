//! The literal table of a request-key program.
//!
//! Instruction operands refer to entries of this table by index.  String
//! entries feed moves and plain tests; `Match`, `Replace` and `ReplaceAll`
//! entries carry compiled regexes.

use vstd::prelude::*;

use crate::regexes::{RegexReplace, RegexReplaceView, RegexTest};

verus! {

/// One tagged entry of the literal table.
pub enum Literal {
    Str(String),
    Match(RegexTest),
    Replace(RegexReplace),
    ReplaceAll(RegexReplace),
}

/// Mathematical model of a literal.
pub ghost enum LiteralView {
    Str(Seq<char>),
    Match(Seq<char>),
    Replace(RegexReplaceView),
    ReplaceAll(RegexReplaceView),
}

impl View for Literal {
    type V = LiteralView;

    open spec fn view(&self) -> LiteralView {
        match self {
            Literal::Str(s) => LiteralView::Str(s@),
            Literal::Match(t) => LiteralView::Match(t@),
            Literal::Replace(r) => LiteralView::Replace(r@),
            Literal::ReplaceAll(r) => LiteralView::ReplaceAll(r@),
        }
    }
}

/// The text of a `Str` literal.
pub open spec fn literal_text(l: LiteralView) -> Seq<char> {
    match l {
        LiteralView::Str(s) => s,
        _ => Seq::empty(),
    }
}

/// The pattern of a `Match` literal.
pub open spec fn literal_pattern(l: LiteralView) -> Seq<char> {
    match l {
        LiteralView::Match(p) => p,
        _ => Seq::empty(),
    }
}

/// The pattern and normalized replacement of a `Replace` or `ReplaceAll`
/// literal.
pub open spec fn literal_replace(l: LiteralView) -> RegexReplaceView {
    match l {
        LiteralView::Replace(r) => r,
        LiteralView::ReplaceAll(r) => r,
        _ => RegexReplaceView { pattern: Seq::empty(), replacement: Seq::empty() },
    }
}

/// The ordered literal entries of one program.
pub struct LiteralTable {
    entries: Vec<Literal>,
}

impl View for LiteralTable {
    type V = Seq<LiteralView>;

    closed spec fn view(&self) -> Seq<LiteralView> {
        self.entries@.map_values(|l: Literal| l@)
    }
}

impl LiteralTable {
    pub fn new(entries: Vec<Literal>) -> (r: LiteralTable)
        ensures
            r@.len() == entries@.len(),
            forall|i: int| 0 <= i < entries@.len() ==> r@[i] == entries@[i]@,
    {
        LiteralTable { entries }
    }

    pub fn len(&self) -> (r: usize)
        ensures
            r == self@.len(),
    {
        self.entries.len()
    }

    /// Whether entry `index` exists and is a `Str`.
    pub fn is_str(&self, index: usize) -> (r: bool)
        ensures
            r == (index < self@.len() && self@[index as int] is Str),
    {
        index < self.entries.len() && matches!(&self.entries[index], Literal::Str(_))
    }

    /// Whether entry `index` exists and is a `Match`.
    pub fn is_match_entry(&self, index: usize) -> (r: bool)
        ensures
            r == (index < self@.len() && self@[index as int] is Match),
    {
        index < self.entries.len() && matches!(&self.entries[index], Literal::Match(_))
    }

    /// Whether entry `index` exists and is a `Replace` or `ReplaceAll`.
    pub fn is_replace_entry(&self, index: usize) -> (r: bool)
        ensures
            r == (index < self@.len() && (self@[index as int] is Replace || self@[
                index as int
            ] is ReplaceAll)),
    {
        index < self.entries.len() && matches!(
            &self.entries[index],
            Literal::Replace(_) | Literal::ReplaceAll(_)
        )
    }

    /// The text of the `Str` entry at `index`.
    pub fn as_str(&self, index: usize) -> (r: &str)
        requires
            index < self@.len(),
            self@[index as int] is Str,
        ensures
            r@ == literal_text(self@[index as int]),
    {
        match &self.entries[index] {
            Literal::Str(s) => s.as_str(),
            _ => "",
        }
    }

    /// The `Match` entry at `index`.
    pub fn as_regex_test(&self, index: usize) -> (r: &RegexTest)
        requires
            index < self@.len(),
            self@[index as int] is Match,
        ensures
            r@ == literal_pattern(self@[index as int]),
    {
        match &self.entries[index] {
            Literal::Match(t) => t,
            _ => unreached(),
        }
    }

    /// The `Replace` or `ReplaceAll` entry at `index`.
    pub fn as_regex_replace(&self, index: usize) -> (r: &RegexReplace)
        requires
            index < self@.len(),
            self@[index as int] is Replace || self@[index as int] is ReplaceAll,
        ensures
            r@ == literal_replace(self@[index as int]),
    {
        match &self.entries[index] {
            Literal::Replace(t) => t,
            Literal::ReplaceAll(t) => t,
            _ => unreached(),
        }
    }
}

} // verus!
