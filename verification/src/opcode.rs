//! Instructions of the request-key virtual machine.
//!
//! The wire form is a packed byte string; every 4-byte chunk is one
//! instruction `[op, operand0, operand1, operand2]` with the operand stored
//! little-endian in 24 bits.  An unknown operation code or part id marks a
//! corrupt archive and fails decoding.

use vstd::prelude::*;

use crate::literal_table::LiteralView;
use crate::request_parts::RequestPart;

verus! {

/// One decoded instruction.
#[derive(Clone, Copy, PartialEq, Eq, Structural, Debug)]
pub enum Opcode {
    Stop,
    JumpUnless { addr: usize },
    ClearValue,
    MoveStringToValue { index: usize },
    MovePartToValue { part: RequestPart },
    MoveValueToPart { part: RequestPart },
    TestValueEquals { index: usize },
    TestValueStartsWith { index: usize },
    TestValueEndsWith { index: usize },
    TestValueIncludes { index: usize },
    TestValueMatchesRegex { index: usize },
    ValueRegexReplace { index: usize },
    ValueRegexReplaceAll { index: usize },
}

/// The operand of a 4-byte chunk: bytes 1 to 3, little-endian.
pub open spec fn operand_spec(b1: u8, b2: u8, b3: u8) -> int {
    b1 + 256 * b2 + 65536 * b3
}

/// The instruction a 4-byte chunk denotes, if its operation code and operand
/// are meaningful.
pub open spec fn opcode_spec(op: u8, operand: int) -> Option<Opcode> {
    if op == 0 {
        Some(Opcode::Stop)
    } else if op == 1 {
        Some(Opcode::JumpUnless { addr: operand as usize })
    } else if op == 10 {
        Some(Opcode::ClearValue)
    } else if op == 11 {
        Some(Opcode::MoveStringToValue { index: operand as usize })
    } else if op == 12 {
        match RequestPart::id_spec(operand) {
            Some(part) => Some(Opcode::MovePartToValue { part }),
            None => None,
        }
    } else if op == 13 {
        match RequestPart::id_spec(operand) {
            Some(part) => Some(Opcode::MoveValueToPart { part }),
            None => None,
        }
    } else if op == 20 {
        Some(Opcode::TestValueEquals { index: operand as usize })
    } else if op == 21 {
        Some(Opcode::TestValueStartsWith { index: operand as usize })
    } else if op == 22 {
        Some(Opcode::TestValueEndsWith { index: operand as usize })
    } else if op == 23 {
        Some(Opcode::TestValueIncludes { index: operand as usize })
    } else if op == 24 {
        Some(Opcode::TestValueMatchesRegex { index: operand as usize })
    } else if op == 30 {
        Some(Opcode::ValueRegexReplace { index: operand as usize })
    } else if op == 31 {
        Some(Opcode::ValueRegexReplaceAll { index: operand as usize })
    } else {
        None
    }
}

/// The instruction encoded by chunk `i` of the byte string.
pub open spec fn chunk_opcode(bytes: Seq<u8>, i: int) -> Option<Opcode> {
    opcode_spec(
        bytes[4 * i],
        operand_spec(bytes[4 * i + 1], bytes[4 * i + 2], bytes[4 * i + 3]),
    )
}

/// Whether every complete 4-byte chunk of the byte string is a meaningful
/// instruction.
pub open spec fn opcodes_decodable(bytes: Seq<u8>) -> bool {
    forall|i: int| 0 <= i < bytes.len() / 4 ==> #[trigger] chunk_opcode(bytes, i) is Some
}

/// The instruction of chunk `i`, defaulting to `Stop` where the chunk is
/// meaningless; callers only use this under `opcodes_decodable`.
pub open spec fn chunk_opcode_value(bytes: Seq<u8>, i: int) -> Opcode {
    match chunk_opcode(bytes, i) {
        Some(op) => op,
        None => Opcode::Stop,
    }
}

/// The full instruction sequence a byte string denotes.
pub open spec fn decoded_ops(bytes: Seq<u8>) -> Seq<Opcode> {
    Seq::new((bytes.len() / 4) as nat, |i: int| chunk_opcode_value(bytes, i))
}

/// Whether an instruction's literal operand points at a table entry of the
/// kind the instruction consumes.  Jump targets need no bound: a target at or
/// past the end simply halts the program.
pub open spec fn op_wf(op: Opcode, lits: Seq<LiteralView>) -> bool {
    match op {
        Opcode::Stop => true,
        Opcode::JumpUnless { .. } => true,
        Opcode::ClearValue => true,
        Opcode::MoveStringToValue { index } => index < lits.len() && lits[index as int] is Str,
        Opcode::MovePartToValue { .. } => true,
        Opcode::MoveValueToPart { .. } => true,
        Opcode::TestValueEquals { index } => index < lits.len() && lits[index as int] is Str,
        Opcode::TestValueStartsWith { index } => index < lits.len() && lits[index as int] is Str,
        Opcode::TestValueEndsWith { index } => index < lits.len() && lits[index as int] is Str,
        Opcode::TestValueIncludes { index } => index < lits.len() && lits[index as int] is Str,
        Opcode::TestValueMatchesRegex { index } => index < lits.len() && lits[
            index as int
        ] is Match,
        Opcode::ValueRegexReplace { index } => index < lits.len() && (lits[index as int] is Replace
            || lits[index as int] is ReplaceAll),
        Opcode::ValueRegexReplaceAll { index } => index < lits.len() && (lits[
            index as int
        ] is Replace || lits[index as int] is ReplaceAll),
    }
}

/// Decodes one 4-byte chunk.
fn decode_chunk(op: u8, b1: u8, b2: u8, b3: u8) -> (r: Option<Opcode>)
    ensures
        r == opcode_spec(op, operand_spec(b1, b2, b3)),
{
    let operand: usize = (b1 as usize) + 256 * (b2 as usize) + 65536 * (b3 as usize);
    match op {
        0 => Some(Opcode::Stop),
        1 => Some(Opcode::JumpUnless { addr: operand }),
        10 => Some(Opcode::ClearValue),
        11 => Some(Opcode::MoveStringToValue { index: operand }),
        12 => match RequestPart::from_id(operand) {
            Some(part) => Some(Opcode::MovePartToValue { part }),
            None => None,
        },
        13 => match RequestPart::from_id(operand) {
            Some(part) => Some(Opcode::MoveValueToPart { part }),
            None => None,
        },
        20 => Some(Opcode::TestValueEquals { index: operand }),
        21 => Some(Opcode::TestValueStartsWith { index: operand }),
        22 => Some(Opcode::TestValueEndsWith { index: operand }),
        23 => Some(Opcode::TestValueIncludes { index: operand }),
        24 => Some(Opcode::TestValueMatchesRegex { index: operand }),
        30 => Some(Opcode::ValueRegexReplace { index: operand }),
        31 => Some(Opcode::ValueRegexReplaceAll { index: operand }),
        _ => None,
    }
}

/// Decodes a packed opcode byte string into instructions, one per complete
/// 4-byte chunk.  Returns `None` when some chunk holds an unknown operation
/// code or part id.
pub fn decode_opcodes(bytes: &[u8]) -> (r: Option<Vec<Opcode>>)
    ensures
        r is Some <==> opcodes_decodable(bytes@),
        r matches Some(ops) ==> {
            &&& ops@.len() == bytes@.len() / 4
            &&& forall|i: int|
                0 <= i < ops@.len() ==> Some(ops@[i]) == #[trigger] chunk_opcode(bytes@, i)
        },
{
    let n: usize = bytes.len();
    let count: usize = n / 4;
    let mut ops: Vec<Opcode> = Vec::with_capacity(count);
    let mut i: usize = 0;
    while i < count
        invariant
            0 <= i <= count,
            count == bytes@.len() / 4,
            n == bytes@.len(),
            ops@.len() == i,
            forall|j: int| 0 <= j < i ==> Some(ops@[j]) == #[trigger] chunk_opcode(bytes@, j),
        decreases count - i,
    {
        let base: usize = 4 * i;
        match decode_chunk(bytes[base], bytes[base + 1], bytes[base + 2], bytes[base + 3]) {
            Some(op) => {
                ops.push(op);
            },
            None => {
                assert(chunk_opcode(bytes@, i as int) is None);
                return None;
            },
        }
        i = i + 1;
    }
    Some(ops)
}

} // verus!
