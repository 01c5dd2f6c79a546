//! Per-request state of the request-key virtual machine.
//!
//! A run owns the mutable request parts, an instruction pointer, a test flag
//! and a value register.  The register is absent, a borrowed view of a part
//! or literal, or an owned string produced by a regex replacement.

use vstd::prelude::*;

use crate::regexes::{
    regex_match, regex_replace_all, regex_replace_first, RegexReplace, RegexReplaceView, RegexTest,
};
use crate::request_parts::{PartsView, RequestPart, RequestParts};
use crate::text::{
    find_char, seq_contains, seq_ends_with, seq_starts_with, str_contains, str_ends_with, str_eq,
    str_starts_with,
};

verus! {

/// The value register.
pub enum Value {
    Part(RequestPart),
    Literal(String),
    Mutated(String),
}

/// Mathematical model of the value register.
pub ghost enum ValueView {
    Part(RequestPart),
    Literal(Seq<char>),
    Mutated(Seq<char>),
}

impl View for Value {
    type V = ValueView;

    open spec fn view(&self) -> ValueView {
        match self {
            Value::Part(p) => ValueView::Part(*p),
            Value::Literal(s) => ValueView::Literal(s@),
            Value::Mutated(s) => ValueView::Mutated(s@),
        }
    }
}

/// A run that cannot continue because the archive's program is meaningless.
#[derive(Clone, Copy, PartialEq, Eq, Structural, Debug)]
pub enum VmFault {
    /// A program tried to move one request part into a different one.
    MovePartToPart,
    /// A program ran past the interpreter's step budget without halting.
    StepLimit,
}

/// Mathematical model of a run's state.
#[verifier::ext_equal]
pub ghost struct StateView {
    pub parts: PartsView,
    pub ip: int,
    pub len: int,
    pub test: bool,
    pub value: Option<ValueView>,
}

/// What the value register holds, read through the current request parts.
pub open spec fn read_value_spec(s: StateView) -> Option<Seq<char>> {
    match s.value {
        Some(ValueView::Part(p)) => s.parts.read(p),
        Some(ValueView::Literal(t)) => Some(t),
        Some(ValueView::Mutated(t)) => Some(t),
        None => None,
    }
}

/// Writing the register into a part: an absent register clears the part, a
/// text register overwrites it, a part register may only be written back into
/// the same part.
pub open spec fn move_value_to_part_spec(s: StateView, part: RequestPart) -> Option<StateView> {
    match s.value {
        Some(ValueView::Literal(t)) => Some(
            (StateView { parts: s.parts.write(part, Some(t)), value: None, ..s }),
        ),
        Some(ValueView::Mutated(t)) => Some(
            (StateView { parts: s.parts.write(part, Some(t)), value: None, ..s }),
        ),
        Some(ValueView::Part(vp)) => if vp == part {
            Some((StateView { value: None, ..s }))
        } else {
            None
        },
        None => Some((StateView { parts: s.parts.write(part, None), value: None, ..s })),
    }
}

/// An absent register fails every test.
pub open spec fn test_eq_spec(s: StateView, lit: Seq<char>) -> bool {
    match read_value_spec(s) {
        Some(v) => v == lit,
        None => false,
    }
}

pub open spec fn test_starts_spec(s: StateView, lit: Seq<char>) -> bool {
    match read_value_spec(s) {
        Some(v) => seq_starts_with(v, lit),
        None => false,
    }
}

pub open spec fn test_ends_spec(s: StateView, lit: Seq<char>) -> bool {
    match read_value_spec(s) {
        Some(v) => seq_ends_with(v, lit),
        None => false,
    }
}

pub open spec fn test_includes_spec(s: StateView, lit: Seq<char>) -> bool {
    match read_value_spec(s) {
        Some(v) => seq_contains(v, lit),
        None => false,
    }
}

pub open spec fn test_matches_spec(s: StateView, pattern: Seq<char>) -> bool {
    match read_value_spec(s) {
        Some(v) => regex_match(pattern, v),
        None => false,
    }
}

/// A replacement touches the register only when the rewritten text differs
/// from what the register held; the register then owns that text.
pub open spec fn replace_spec(s: StateView, rv: RegexReplaceView, all: bool) -> StateView {
    match read_value_spec(s) {
        Some(v) => {
            let out = if all {
                regex_replace_all(rv.pattern, rv.replacement, v)
            } else {
                regex_replace_first(rv.pattern, rv.replacement, v)
            };
            if out != v {
                StateView { value: Some(ValueView::Mutated(out)), ..s }
            } else {
                s
            }
        },
        None => s,
    }
}

/// Per-request state of one program run.
pub struct State {
    parts: RequestParts,
    ip: usize,
    len: usize,
    test: bool,
    value: Option<Value>,
}

impl View for State {
    type V = StateView;

    closed spec fn view(&self) -> StateView {
        StateView {
            parts: self.parts@,
            ip: self.ip as int,
            len: self.len as int,
            test: self.test,
            value: match &self.value {
                Some(v) => Some(v@),
                None => None,
            },
        }
    }
}

impl State {
    /// Fresh state over the incoming request triple.
    pub fn new(method: &str, authority: &str, path_and_query: &str) -> (r: State)
        ensures
            r@ == (StateView {
                parts: (PartsView {
                    method: method@,
                    authority: authority@,
                    path_and_query: path_and_query@,
                    query_index: find_char(path_and_query@, '?'),
                }),
                ip: 0,
                len: 0,
                test: false,
                value: None,
            }),
            r@.parts.wf(),
    {
        State {
            parts: RequestParts::new(method, authority, path_and_query),
            ip: 0,
            len: 0,
            test: false,
            value: None,
        }
    }

    /// Whether another instruction is due.
    pub fn has_next(&self) -> (r: bool)
        ensures
            r == (self@.ip < self@.len),
    {
        self.ip < self.len
    }

    /// Yields the current instruction index and moves past it.
    pub fn next(&mut self) -> (r: usize)
        requires
            old(self)@.ip < old(self)@.len,
        ensures
            r == old(self)@.ip,
            final(self)@ == (StateView { ip: old(self)@.ip + 1, ..old(self)@ }),
    {
        let ip = self.ip;
        self.ip = ip + 1;
        ip
    }

    /// Records how many instructions the program has.
    pub fn set_len(&mut self, len: usize)
        ensures
            final(self)@ == (StateView { len: len as int, ..old(self)@ }),
    {
        self.len = len;
    }

    /// Halts the run.
    pub fn stop(&mut self)
        ensures
            final(self)@ == (StateView { ip: old(self)@.len, ..old(self)@ }),
    {
        self.ip = self.len;
    }

    /// Jumps to `addr` when the last test failed.
    pub fn jump_unless(&mut self, addr: usize)
        ensures
            final(self)@ == if old(self)@.test {
                old(self)@
            } else {
                (StateView { ip: addr as int, ..old(self)@ })
            },
    {
        if !self.test {
            self.ip = addr;
        }
    }

    /// Empties the value register.
    pub fn clear_value(&mut self)
        ensures
            final(self)@ == (StateView { value: None, ..old(self)@ }),
    {
        self.value = None;
    }

    /// Points the register at a string literal.
    pub fn move_string_to_value(&mut self, literal: &str)
        ensures
            final(self)@ == (StateView {
                value: Some(ValueView::Literal(literal@)),
                ..old(self)@
            }),
    {
        self.value = Some(Value::Literal(literal.to_owned()));
    }

    /// Points the register at a request part.
    pub fn move_part_to_value(&mut self, part: RequestPart)
        ensures
            final(self)@ == (StateView { value: Some(ValueView::Part(part)), ..old(self)@ }),
    {
        self.value = Some(Value::Part(part));
    }

    /// Writes the register into `part` and empties it.  Moving one part into
    /// a different part is not supported and faults.
    pub fn move_value_to_part(&mut self, part: RequestPart) -> (r: Result<(), VmFault>)
        requires
            old(self)@.parts.wf(),
        ensures
            match move_value_to_part_spec(old(self)@, part) {
                Some(s2) => r is Ok && final(self)@ == s2 && final(self)@.parts.wf(),
                None => r == Result::<(), VmFault>::Err(VmFault::MovePartToPart) && final(self)@
                    == old(self)@,
            },
    {
        match &self.value {
            Some(Value::Literal(s)) => {
                let text = s.clone();
                self.parts.set_part(part, Some(text.as_str()));
            },
            Some(Value::Mutated(s)) => {
                let text = s.clone();
                self.parts.set_part(part, Some(text.as_str()));
            },
            Some(Value::Part(vp)) => {
                if *vp != part {
                    return Err(VmFault::MovePartToPart);
                }
            },
            None => {
                self.parts.set_part(part, None);
            },
        }
        self.value = None;
        Ok(())
    }

    /// Tests the register for equality with a literal.
    pub fn test_value_equals(&mut self, literal: &str)
        requires
            old(self)@.parts.wf(),
        ensures
            final(self)@ == (StateView {
                test: test_eq_spec(old(self)@, literal@),
                ..old(self)@
            }),
    {
        let t = match self.read_value() {
            Some(v) => str_eq(v, literal),
            None => false,
        };
        self.test = t;
    }

    /// Tests whether the register starts with a literal.
    pub fn test_value_starts_with(&mut self, literal: &str)
        requires
            old(self)@.parts.wf(),
        ensures
            final(self)@ == (StateView {
                test: test_starts_spec(old(self)@, literal@),
                ..old(self)@
            }),
    {
        let t = match self.read_value() {
            Some(v) => str_starts_with(v, literal),
            None => false,
        };
        self.test = t;
    }

    /// Tests whether the register ends with a literal.
    pub fn test_value_ends_with(&mut self, literal: &str)
        requires
            old(self)@.parts.wf(),
        ensures
            final(self)@ == (StateView {
                test: test_ends_spec(old(self)@, literal@),
                ..old(self)@
            }),
    {
        let t = match self.read_value() {
            Some(v) => str_ends_with(v, literal),
            None => false,
        };
        self.test = t;
    }

    /// Tests whether the register contains a literal.
    pub fn test_value_includes(&mut self, literal: &str)
        requires
            old(self)@.parts.wf(),
        ensures
            final(self)@ == (StateView {
                test: test_includes_spec(old(self)@, literal@),
                ..old(self)@
            }),
    {
        let t = match self.read_value() {
            Some(v) => str_contains(v, literal),
            None => false,
        };
        self.test = t;
    }

    /// Tests the register against a regex literal.
    pub fn test_value_matches(&mut self, regex: &RegexTest)
        requires
            old(self)@.parts.wf(),
        ensures
            final(self)@ == (StateView {
                test: test_matches_spec(old(self)@, regex@),
                ..old(self)@
            }),
    {
        let t = match self.read_value() {
            Some(v) => regex.is_match(v),
            None => false,
        };
        self.test = t;
    }

    /// Rewrites the first match of a replacement literal in the register;
    /// the register takes ownership only when the text actually changed.
    pub fn value_regex_replace(&mut self, regex: &RegexReplace)
        requires
            old(self)@.parts.wf(),
        ensures
            final(self)@ == replace_spec(old(self)@, regex@, false),
    {
        let out = match self.read_value() {
            Some(v) => {
                let (text, _) = regex.replace(v);
                if str_eq(text.as_str(), v) {
                    None
                } else {
                    Some(text)
                }
            },
            None => None,
        };
        match out {
            Some(text) => self.value = Some(Value::Mutated(text)),
            None => {},
        }
    }

    /// Rewrites every match of a replacement literal in the register; the
    /// register takes ownership only when the text actually changed.
    pub fn value_regex_replace_all(&mut self, regex: &RegexReplace)
        requires
            old(self)@.parts.wf(),
        ensures
            final(self)@ == replace_spec(old(self)@, regex@, true),
    {
        let out = match self.read_value() {
            Some(v) => {
                let (text, _) = regex.replace_all(v);
                if str_eq(text.as_str(), v) {
                    None
                } else {
                    Some(text)
                }
            },
            None => None,
        };
        match out {
            Some(text) => self.value = Some(Value::Mutated(text)),
            None => {},
        }
    }

    /// Resolves the register to text, reading parts through the current
    /// request state.
    pub fn read_value(&self) -> (r: Option<&str>)
        requires
            self@.parts.wf(),
        ensures
            match r {
                Some(s) => read_value_spec(self@) == Some(s@),
                None => read_value_spec(self@) is None,
            },
    {
        match &self.value {
            Some(Value::Literal(s)) => Some(s.as_str()),
            Some(Value::Mutated(s)) => Some(s.as_str()),
            Some(Value::Part(p)) => self.parts.get_part(*p),
            None => None,
        }
    }

    /// Renders the canonical key of the current request parts.
    pub fn key(self) -> (r: String)
        ensures
            r@ == self@.parts.key(),
    {
        self.parts.key()
    }
}

} // verus!
