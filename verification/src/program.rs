//! A request-key program and its interpreter.
//!
//! A program pairs a literal table with decoded instructions.  Its meaning is
//! the small-step relation `step`; running a program iterates that relation
//! until the instruction pointer leaves the program.  Execution is
//! deterministic: whatever step count witnesses a halt, the halted state is
//! the same.

use vstd::prelude::*;

use crate::literal_table::{
    literal_pattern, literal_replace, literal_text, LiteralTable, LiteralView,
};
use crate::opcode::{decode_opcodes, decoded_ops, op_wf, opcodes_decodable, Opcode};
use crate::request_parts::PartsView;
use crate::state::{
    move_value_to_part_spec, replace_spec, test_eq_spec, test_ends_spec, test_includes_spec,
    test_matches_spec, test_starts_spec, State, StateView, ValueView, VmFault,
};
use crate::text::find_char;

verus! {

/// More steps than any program that halts at all will ever take.
pub const STEP_LIMIT: u64 = 0xFFFF_FFFF_FFFF_FFFF;

/// Mathematical model of a program.
#[verifier::ext_equal]
pub ghost struct ProgramView {
    pub literals: Seq<LiteralView>,
    pub ops: Seq<Opcode>,
}

/// Every instruction's literal operand points at an entry of the kind it
/// consumes.
pub open spec fn program_wf(p: ProgramView) -> bool {
    forall|i: int| 0 <= i < p.ops.len() ==> op_wf(#[trigger] p.ops[i], p.literals)
}

/// The program no longer points at an instruction.
pub open spec fn halted(p: ProgramView, s: StateView) -> bool {
    s.ip >= p.ops.len()
}

/// One instruction, applied to the state after the fetch has advanced the
/// instruction pointer.  `None` marks an archive-integrity fault.
pub open spec fn step(p: ProgramView, s: StateView) -> Option<StateView> {
    op_step(p.ops[s.ip], p.literals, (StateView { ip: s.ip + 1, ..s }))
}

/// What one instruction does to the state it finds after its fetch.
pub open spec fn op_step(op: Opcode, lits: Seq<LiteralView>, s1: StateView) -> Option<StateView> {
    match op {
        Opcode::Stop => Some((StateView { ip: s1.len, ..s1 })),
        Opcode::JumpUnless { addr } => Some(
            if s1.test {
                s1
            } else {
                StateView { ip: addr as int, ..s1 }
            },
        ),
        Opcode::ClearValue => Some((StateView { value: None, ..s1 })),
        Opcode::MoveStringToValue { index } => Some(
            (StateView {
                value: Some(ValueView::Literal(literal_text(lits[index as int]))),
                ..s1
            }),
        ),
        Opcode::MovePartToValue { part } => Some(
            (StateView { value: Some(ValueView::Part(part)), ..s1 }),
        ),
        Opcode::MoveValueToPart { part } => move_value_to_part_spec(s1, part),
        Opcode::TestValueEquals { index } => Some(
            (StateView { test: test_eq_spec(s1, literal_text(lits[index as int])), ..s1 }),
        ),
        Opcode::TestValueStartsWith { index } => Some(
            (StateView {
                test: test_starts_spec(s1, literal_text(lits[index as int])),
                ..s1
            }),
        ),
        Opcode::TestValueEndsWith { index } => Some(
            (StateView { test: test_ends_spec(s1, literal_text(lits[index as int])), ..s1 }),
        ),
        Opcode::TestValueIncludes { index } => Some(
            (StateView {
                test: test_includes_spec(s1, literal_text(lits[index as int])),
                ..s1
            }),
        ),
        Opcode::TestValueMatchesRegex { index } => Some(
            (StateView {
                test: test_matches_spec(s1, literal_pattern(lits[index as int])),
                ..s1
            }),
        ),
        Opcode::ValueRegexReplace { index } => Some(
            replace_spec(s1, literal_replace(lits[index as int]), false),
        ),
        Opcode::ValueRegexReplaceAll { index } => Some(
            replace_spec(s1, literal_replace(lits[index as int]), true),
        ),
    }
}

/// `n` small steps from `s`, stopping early on a halt and absorbing a fault.
pub open spec fn iterate(p: ProgramView, s: StateView, n: nat) -> Option<StateView>
    decreases n,
{
    if n == 0 {
        Some(s)
    } else if halted(p, s) {
        Some(s)
    } else {
        match step(p, s) {
            Some(s2) => iterate(p, s2, (n - 1) as nat),
            None => None,
        }
    }
}

/// Some step count drives `s0` to the halted state `sf`.
pub open spec fn runs_to(p: ProgramView, s0: StateView, sf: StateView) -> bool {
    exists|n: nat| iterate(p, s0, n) == Some(sf) && halted(p, sf)
}

/// Some step count drives `s0` into an archive-integrity fault.
pub open spec fn faults(p: ProgramView, s0: StateView) -> bool {
    exists|n: nat| iterate(p, s0, n) is None
}

/// Even the step budget did not reach a halt or a fault.
pub open spec fn out_of_fuel(p: ProgramView, s0: StateView) -> bool {
    exists|t: StateView| iterate(p, s0, STEP_LIMIT as nat) == Some(t) && !halted(p, t)
}

/// The state a run starts from, once the program length is known.
pub open spec fn init_state(m: Seq<char>, a: Seq<char>, q: Seq<char>, len: int) -> StateView {
    StateView {
        parts: (PartsView {
            method: m,
            authority: a,
            path_and_query: q,
            query_index: find_char(q, '?'),
        }),
        ip: 0,
        len: len,
        test: false,
        value: None,
    }
}

/// Extending an iteration by one step applies `step` to its result.
proof fn lemma_iterate_step(p: ProgramView, s: StateView, t: StateView, n: nat)
    requires
        iterate(p, s, n) == Some(t),
    ensures
        iterate(p, s, n + 1) == if halted(p, t) {
            Some(t)
        } else {
            step(p, t)
        },
    decreases n,
{
    reveal_with_fuel(iterate, 3);
    if n == 0 {
    } else if halted(p, s) {
    } else {
        match step(p, s) {
            Some(s2) => {
                lemma_iterate_step(p, s2, t, (n - 1) as nat);
            },
            None => {
                assert(false);
            },
        }
    }
}

/// A halted state absorbs any further steps.
proof fn lemma_halted_stable(p: ProgramView, s: StateView, t: StateView, n: nat, m: nat)
    requires
        iterate(p, s, n) == Some(t),
        halted(p, t),
        n <= m,
    ensures
        iterate(p, s, m) == Some(t),
    decreases m - n,
{
    if n < m {
        lemma_iterate_step(p, s, t, n);
        lemma_halted_stable(p, s, t, n + 1, m);
    }
}

/// A fault absorbs any further steps.
proof fn lemma_fault_stable(p: ProgramView, s: StateView, n: nat, m: nat)
    requires
        iterate(p, s, n) is None,
        n <= m,
    ensures
        iterate(p, s, m) is None,
    decreases n,
{
    assert(n != 0);
    assert(!halted(p, s));
    match step(p, s) {
        Some(s2) => {
            lemma_fault_stable(p, s2, (n - 1) as nat, (m - 1) as nat);
        },
        None => {},
    }
}

/// The virtual machine is deterministic: a program and a start state have at
/// most one halted outcome, whatever step counts witness it.
pub proof fn lemma_vm_deterministic(p: ProgramView, s0: StateView, a: StateView, b: StateView)
    requires
        runs_to(p, s0, a),
        runs_to(p, s0, b),
    ensures
        a == b,
{
    let na = choose|n: nat| iterate(p, s0, n) == Some(a) && halted(p, a);
    let nb = choose|n: nat| iterate(p, s0, n) == Some(b) && halted(p, b);
    if na <= nb {
        lemma_halted_stable(p, s0, a, na, nb);
    } else {
        lemma_halted_stable(p, s0, b, nb, na);
    }
}

/// A run that halts never faults: the two outcomes exclude each other.
pub proof fn lemma_run_excludes_fault(p: ProgramView, s0: StateView, a: StateView)
    requires
        runs_to(p, s0, a),
    ensures
        !faults(p, s0),
{
    let na = choose|n: nat| iterate(p, s0, n) == Some(a) && halted(p, a);
    assert forall|m: nat| !(#[trigger] iterate(p, s0, m) is None) by {
        if iterate(p, s0, m) is None {
            if m <= na {
                lemma_fault_stable(p, s0, m, na);
            } else {
                lemma_halted_stable(p, s0, a, na, m);
            }
        }
    }
}

/// An empty program changes nothing: it halts at once, so the key it yields
/// is the request triple joined by single spaces, unchanged.
pub proof fn lemma_empty_program_identity(
    p: ProgramView,
    m: Seq<char>,
    a: Seq<char>,
    q: Seq<char>,
    sf: StateView,
)
    requires
        p.ops.len() == 0,
        runs_to(p, init_state(m, a, q, p.ops.len() as int), sf),
    ensures
        sf == init_state(m, a, q, p.ops.len() as int),
        sf.parts.key() == m + seq![' '] + a + seq![' '] + q,
{
    let s0 = init_state(m, a, q, p.ops.len() as int);
    let n = choose|n: nat| iterate(p, s0, n) == Some(sf) && halted(p, sf);
    assert(halted(p, s0));
    lemma_halted_stable(p, s0, s0, 0, n);
}

/// Why a program cannot be built from an archive.
#[derive(Clone, Copy, PartialEq, Eq, Structural, Debug)]
pub enum ProgramError {
    /// Some 4-byte chunk holds an unknown operation code or part id.
    UnknownOpcode,
    /// Some instruction points at a missing or wrongly-typed literal.
    BadLiteral,
}

/// A literal table plus the decoded instructions that act on it.
pub struct Program {
    literals: LiteralTable,
    ops: Vec<Opcode>,
}

impl View for Program {
    type V = ProgramView;

    closed spec fn view(&self) -> ProgramView {
        ProgramView { literals: self.literals@, ops: self.ops@ }
    }
}

/// Whether one instruction's literal operand is usable against the table.
fn check_op(op: &Opcode, literals: &LiteralTable) -> (r: bool)
    ensures
        r == op_wf(*op, literals@),
{
    match op {
        Opcode::Stop => true,
        Opcode::JumpUnless { .. } => true,
        Opcode::ClearValue => true,
        Opcode::MoveStringToValue { index } => literals.is_str(*index),
        Opcode::MovePartToValue { .. } => true,
        Opcode::MoveValueToPart { .. } => true,
        Opcode::TestValueEquals { index } => literals.is_str(*index),
        Opcode::TestValueStartsWith { index } => literals.is_str(*index),
        Opcode::TestValueEndsWith { index } => literals.is_str(*index),
        Opcode::TestValueIncludes { index } => literals.is_str(*index),
        Opcode::TestValueMatchesRegex { index } => literals.is_match_entry(*index),
        Opcode::ValueRegexReplace { index } => literals.is_replace_entry(*index),
        Opcode::ValueRegexReplaceAll { index } => literals.is_replace_entry(*index),
    }
}

/// Performs one fetched instruction on the state, reporting the one fault an
/// instruction can raise.
fn exec_op(op: Opcode, literals: &LiteralTable, state: &mut State) -> (r: Result<(), VmFault>)
    requires
        op_wf(op, literals@),
        old(state)@.parts.wf(),
    ensures
        match op_step(op, literals@, old(state)@) {
            Some(s2) => r is Ok && final(state)@ == s2 && final(state)@.parts.wf(),
            None => r == Result::<(), VmFault>::Err(VmFault::MovePartToPart) && final(state)@
                == old(state)@,
        },
{
    match op {
        Opcode::Stop => state.stop(),
        Opcode::JumpUnless { addr } => state.jump_unless(addr),
        Opcode::ClearValue => state.clear_value(),
        Opcode::MoveStringToValue { index } => state.move_string_to_value(
            literals.as_str(index),
        ),
        Opcode::MovePartToValue { part } => state.move_part_to_value(part),
        Opcode::MoveValueToPart { part } => {
            return state.move_value_to_part(part);
        },
        Opcode::TestValueEquals { index } => state.test_value_equals(literals.as_str(index)),
        Opcode::TestValueStartsWith { index } => state.test_value_starts_with(
            literals.as_str(index),
        ),
        Opcode::TestValueEndsWith { index } => state.test_value_ends_with(
            literals.as_str(index),
        ),
        Opcode::TestValueIncludes { index } => state.test_value_includes(
            literals.as_str(index),
        ),
        Opcode::TestValueMatchesRegex { index } => state.test_value_matches(
            literals.as_regex_test(index),
        ),
        Opcode::ValueRegexReplace { index } => state.value_regex_replace(
            literals.as_regex_replace(index),
        ),
        Opcode::ValueRegexReplaceAll { index } => state.value_regex_replace_all(
            literals.as_regex_replace(index),
        ),
    }
    Ok(())
}

impl Program {
    /// Decodes the packed opcode bytes against a literal table, rejecting
    /// unknown instructions and dangling or wrongly-typed literal operands.
    pub fn new(literals: LiteralTable, opcode_bytes: &[u8]) -> (r: Result<Program, ProgramError>)
        ensures
            r is Ok <==> opcodes_decodable(opcode_bytes@) && program_wf(
                (ProgramView { literals: literals@, ops: decoded_ops(opcode_bytes@) }),
            ),
            r matches Ok(prog) ==> prog@ == (ProgramView {
                literals: literals@,
                ops: decoded_ops(opcode_bytes@),
            }),
            r matches Ok(prog) ==> program_wf(prog@),
            r == Result::<Program, ProgramError>::Err(ProgramError::UnknownOpcode)
                ==> !opcodes_decodable(opcode_bytes@),
            r == Result::<Program, ProgramError>::Err(ProgramError::BadLiteral)
                ==> opcodes_decodable(opcode_bytes@) && !program_wf(
                (ProgramView { literals: literals@, ops: decoded_ops(opcode_bytes@) }),
            ),
    {
        let ops = match decode_opcodes(opcode_bytes) {
            Some(ops) => ops,
            None => {
                return Err(ProgramError::UnknownOpcode);
            },
        };
        proof {
            assert(ops@ =~= decoded_ops(opcode_bytes@));
        }
        let n = ops.len();
        let mut i: usize = 0;
        while i < n
            invariant
                0 <= i <= n,
                n == ops@.len(),
                ops@ == decoded_ops(opcode_bytes@),
                opcodes_decodable(opcode_bytes@),
                forall|j: int| 0 <= j < i ==> op_wf(#[trigger] ops@[j], literals@),
            decreases n - i,
        {
            if !check_op(&ops[i], &literals) {
                proof {
                    let pv = ProgramView { literals: literals@, ops: decoded_ops(opcode_bytes@) };
                    assert(pv.ops[i as int] == ops@[i as int]);
                    assert(!op_wf(pv.ops[i as int], pv.literals));
                    assert(!program_wf(pv));
                }
                return Err(ProgramError::BadLiteral);
            }
            i = i + 1;
        }
        Ok(Program { literals, ops })
    }

    /// Number of instructions.
    pub fn len(&self) -> (r: usize)
        ensures
            r == self@.ops.len(),
    {
        self.ops.len()
    }

    /// Runs the program over `state` until it halts, faults, or exhausts the
    /// step budget.
    pub fn exec(&self, state: &mut State) -> (r: Result<(), VmFault>)
        requires
            program_wf(self@),
            old(state)@.parts.wf(),
        ensures
            ({
                let s0 = StateView { len: self@.ops.len() as int, ..old(state)@ };
                match r {
                    Ok(()) => runs_to(self@, s0, final(state)@) && final(state)@.parts.wf(),
                    Err(VmFault::MovePartToPart) => faults(self@, s0),
                    Err(VmFault::StepLimit) => out_of_fuel(self@, s0),
                }
            }),
    {
        let ghost p = self@;
        state.set_len(self.ops.len());
        let ghost s0 = state@;
        let ghost mut steps: nat = 0;
        let mut fuel: u64 = STEP_LIMIT;
        while state.has_next()
            invariant
                self@ == p,
                program_wf(p),
                s0 == (StateView { len: p.ops.len() as int, ..old(state)@ }),
                iterate(p, s0, steps) == Some(state@),
                state@.parts.wf(),
                state@.len == p.ops.len(),
                steps + fuel == STEP_LIMIT as nat,
            decreases fuel,
        {
            if fuel == 0 {
                proof {
                    assert(steps == STEP_LIMIT as nat);
                    assert(iterate(p, s0, STEP_LIMIT as nat) == Some(state@));
                    assert(!halted(p, state@));
                    assert(out_of_fuel(p, s0));
                }
                return Err(VmFault::StepLimit);
            }
            fuel = fuel - 1;
            let ghost prev = state@;
            let i = state.next();
            proof {
                assert(op_wf(p.ops[i as int], p.literals));
            }
            let op = self.ops[i];
            match exec_op(op, &self.literals, state) {
                Ok(()) => {
                    proof {
                        assert(step(p, prev) == Some(state@));
                        lemma_iterate_step(p, s0, prev, steps);
                        steps = steps + 1;
                    }
                },
                Err(fault) => {
                    proof {
                        assert(step(p, prev) is None);
                        lemma_iterate_step(p, s0, prev, steps);
                        assert(iterate(p, s0, steps + 1) is None);
                        assert(faults(p, s0));
                    }
                    return Err(fault);
                },
            }
        }
        Ok(())
    }
}

/// A compiled request-key program, ready to canonicalize request triples.
pub struct RequestKey {
    program: Program,
}

impl View for RequestKey {
    type V = ProgramView;

    closed spec fn view(&self) -> ProgramView {
        self.program@
    }
}

impl RequestKey {
    pub fn new(program: Program) -> (r: RequestKey)
        ensures
            r@ == program@,
    {
        RequestKey { program }
    }

    /// Canonicalizes a request triple into its lookup key by running the
    /// program over a fresh state.
    pub fn key_for(&self, method: &str, authority: &str, path_and_query: &str) -> (r: Result<
        String,
        VmFault,
    >)
        requires
            program_wf(self@),
        ensures
            ({
                let s0 = init_state(method@, authority@, path_and_query@, self@.ops.len() as int);
                match r {
                    Ok(k) => exists|sf: StateView|
                        #[trigger] runs_to(self@, s0, sf) && k@ == sf.parts.key(),
                    Err(VmFault::MovePartToPart) => faults(self@, s0),
                    Err(VmFault::StepLimit) => out_of_fuel(self@, s0),
                }
            }),
    {
        let mut state = State::new(method, authority, path_and_query);
        match self.program.exec(&mut state) {
            Ok(()) => Ok(state.key()),
            Err(fault) => Err(fault),
        }
    }
}

} // verus!
