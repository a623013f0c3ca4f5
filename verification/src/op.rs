//! The instruction set: a closed enumeration of opcodes, the mapping between
//! opcodes and their single-byte tags, and the fixed operand width of each
//! opcode (how many bytes follow the tag in the instruction stream).

use vstd::prelude::*;

verus! {

/// One instruction kind. Each opcode is encoded as a single tag byte
/// (see [`op_tag`]) followed by a fixed number of operand bytes
/// (see [`spec_operand_len`]).
#[derive(Clone, Copy, Debug, PartialEq, Eq, Structural)]
pub enum Op {
    /// Pop two values, push their sum.
    Add,
    /// Pop two values, push their difference.
    Sub,
    /// Pop two values, push whether they are equal.
    Eq,
    /// Pop two values, push whether the first is less than or equal.
    Lte,
    /// Operand: count N. Pop N values, push their intersection.
    Intersect,
    /// Operand: count N. Pop N values, push their union.
    Union,
    /// Operand: count N. Pop and print N values.
    Print,
    /// Operand: constant-pool index. Push the constant at that index.
    Constant,
    /// Discard the top of the stack.
    Pop,
    /// Operands: argument count N, then the constant-pool index naming the
    /// callee. Pop the arguments and the callee, push the return value.
    Call,
    /// Like `Call`, but reuses the current call frame.
    TailCall,
    /// Operand: big-endian 16-bit skip offset. Pop subject and supertype,
    /// push the result of the structural subtype test.
    Extends,
    /// Like `Extends`, but aborts evaluation when the test fails.
    PanicExtends,
    /// Operand: big-endian 16-bit offset, measured from the byte after the
    /// operand. Unconditional relative control transfer.
    Jump,
    /// Push a synthesized number literal.
    Number,
    /// Push a synthesized string literal.
    String,
    /// Tear down the current call frame.
    PopCallFrame,
    /// Operand: field count N. Pop the fields, push a structured object.
    MakeObj,
    /// Operand: local slot index. Pop one value into that slot.
    SetLocal,
    /// Operand: local slot index. Push the value of that slot.
    GetLocal,
    /// Operand: constant-pool index naming the global. Pop one value into it.
    SetGlobal,
    /// Operand: constant-pool index naming the global. Push its value.
    GetGlobal,
}

/// The largest valid opcode tag. Any tag byte above this value is not an
/// instruction and must be rejected by the decoder.
pub const OP_MAX: u8 = 21;

/// The tag byte that encodes an opcode in the instruction stream.
pub open spec fn op_tag(op: Op) -> u8 {
    match op {
        Op::Add => 0,
        Op::Sub => 1,
        Op::Eq => 2,
        Op::Lte => 3,
        Op::Intersect => 4,
        Op::Union => 5,
        Op::Print => 6,
        Op::Constant => 7,
        Op::Pop => 8,
        Op::Call => 9,
        Op::TailCall => 10,
        Op::Extends => 11,
        Op::PanicExtends => 12,
        Op::Jump => 13,
        Op::Number => 14,
        Op::String => 15,
        Op::PopCallFrame => 16,
        Op::MakeObj => 17,
        Op::SetLocal => 18,
        Op::GetLocal => 19,
        Op::SetGlobal => 20,
        Op::GetGlobal => 21,
    }
}

/// The opcode a tag byte stands for, or `None` when the tag exceeds
/// [`OP_MAX`]: the exhaustive inverse of [`op_tag`].
pub open spec fn op_of_tag(t: u8) -> Option<Op> {
    if t == 0 {
        Some(Op::Add)
    } else if t == 1 {
        Some(Op::Sub)
    } else if t == 2 {
        Some(Op::Eq)
    } else if t == 3 {
        Some(Op::Lte)
    } else if t == 4 {
        Some(Op::Intersect)
    } else if t == 5 {
        Some(Op::Union)
    } else if t == 6 {
        Some(Op::Print)
    } else if t == 7 {
        Some(Op::Constant)
    } else if t == 8 {
        Some(Op::Pop)
    } else if t == 9 {
        Some(Op::Call)
    } else if t == 10 {
        Some(Op::TailCall)
    } else if t == 11 {
        Some(Op::Extends)
    } else if t == 12 {
        Some(Op::PanicExtends)
    } else if t == 13 {
        Some(Op::Jump)
    } else if t == 14 {
        Some(Op::Number)
    } else if t == 15 {
        Some(Op::String)
    } else if t == 16 {
        Some(Op::PopCallFrame)
    } else if t == 17 {
        Some(Op::MakeObj)
    } else if t == 18 {
        Some(Op::SetLocal)
    } else if t == 19 {
        Some(Op::GetLocal)
    } else if t == 20 {
        Some(Op::SetGlobal)
    } else if t == 21 {
        Some(Op::GetGlobal)
    } else {
        None
    }
}

/// How many operand bytes follow the tag byte of this opcode. The width is
/// fixed per opcode; opcodes with a variable number of *stack* operands
/// carry the count in a single operand byte.
pub open spec fn spec_operand_len(op: Op) -> nat {
    match op {
        Op::Add => 0,
        Op::Sub => 0,
        Op::Eq => 0,
        Op::Lte => 0,
        Op::Pop => 0,
        Op::Number => 0,
        Op::String => 0,
        Op::PopCallFrame => 0,
        Op::Intersect => 1,
        Op::Union => 1,
        Op::Print => 1,
        Op::Constant => 1,
        Op::MakeObj => 1,
        Op::SetLocal => 1,
        Op::GetLocal => 1,
        Op::SetGlobal => 1,
        Op::GetGlobal => 1,
        Op::Call => 2,
        Op::TailCall => 2,
        Op::Extends => 2,
        Op::PanicExtends => 2,
        Op::Jump => 2,
    }
}

impl Op {
    /// The tag byte this opcode is encoded as.
    pub fn to_byte(self) -> (t: u8)
        ensures
            t == op_tag(self),
            t <= OP_MAX,
    {
        match self {
            Op::Add => 0,
            Op::Sub => 1,
            Op::Eq => 2,
            Op::Lte => 3,
            Op::Intersect => 4,
            Op::Union => 5,
            Op::Print => 6,
            Op::Constant => 7,
            Op::Pop => 8,
            Op::Call => 9,
            Op::TailCall => 10,
            Op::Extends => 11,
            Op::PanicExtends => 12,
            Op::Jump => 13,
            Op::Number => 14,
            Op::String => 15,
            Op::PopCallFrame => 16,
            Op::MakeObj => 17,
            Op::SetLocal => 18,
            Op::GetLocal => 19,
            Op::SetGlobal => 20,
            Op::GetGlobal => 21,
        }
    }

    /// The opcode a tag byte stands for, or `None` for a tag above
    /// [`OP_MAX`]: the validated replacement for reinterpreting a raw byte
    /// as an instruction.
    pub fn from_byte(t: u8) -> (r: Option<Op>)
        ensures
            r == op_of_tag(t),
            r is Some <==> t <= OP_MAX,
    {
        if t == 0 {
            Some(Op::Add)
        } else if t == 1 {
            Some(Op::Sub)
        } else if t == 2 {
            Some(Op::Eq)
        } else if t == 3 {
            Some(Op::Lte)
        } else if t == 4 {
            Some(Op::Intersect)
        } else if t == 5 {
            Some(Op::Union)
        } else if t == 6 {
            Some(Op::Print)
        } else if t == 7 {
            Some(Op::Constant)
        } else if t == 8 {
            Some(Op::Pop)
        } else if t == 9 {
            Some(Op::Call)
        } else if t == 10 {
            Some(Op::TailCall)
        } else if t == 11 {
            Some(Op::Extends)
        } else if t == 12 {
            Some(Op::PanicExtends)
        } else if t == 13 {
            Some(Op::Jump)
        } else if t == 14 {
            Some(Op::Number)
        } else if t == 15 {
            Some(Op::String)
        } else if t == 16 {
            Some(Op::PopCallFrame)
        } else if t == 17 {
            Some(Op::MakeObj)
        } else if t == 18 {
            Some(Op::SetLocal)
        } else if t == 19 {
            Some(Op::GetLocal)
        } else if t == 20 {
            Some(Op::SetGlobal)
        } else if t == 21 {
            Some(Op::GetGlobal)
        } else {
            None
        }
    }

    /// How many operand bytes follow this opcode's tag byte.
    pub fn operand_len(self) -> (n: usize)
        ensures
            n == spec_operand_len(self),
    {
        match self {
            Op::Add => 0,
            Op::Sub => 0,
            Op::Eq => 0,
            Op::Lte => 0,
            Op::Pop => 0,
            Op::Number => 0,
            Op::String => 0,
            Op::PopCallFrame => 0,
            Op::Intersect => 1,
            Op::Union => 1,
            Op::Print => 1,
            Op::Constant => 1,
            Op::MakeObj => 1,
            Op::SetLocal => 1,
            Op::GetLocal => 1,
            Op::SetGlobal => 1,
            Op::GetGlobal => 1,
            Op::Call => 2,
            Op::TailCall => 2,
            Op::Extends => 2,
            Op::PanicExtends => 2,
            Op::Jump => 2,
        }
    }
}

/// Tag encoding is injective and stays in range: decoding an opcode's own
/// tag byte gives that opcode back.
pub proof fn lemma_tag_round_trip(op: Op)
    ensures
        op_tag(op) <= OP_MAX,
        op_of_tag(op_tag(op)) == Some(op),
{
}

/// Every tag byte up to [`OP_MAX`] names exactly one opcode, whose tag it is.
pub proof fn lemma_valid_tag_has_op(t: u8)
    requires
        t <= OP_MAX,
    ensures
        op_of_tag(t) is Some,
        op_tag(op_of_tag(t)->Some_0) == t,
{
}

/// No tag byte above [`OP_MAX`] names an opcode.
pub proof fn lemma_invalid_tag_has_no_op(t: u8)
    requires
        t > OP_MAX,
    ensures
        op_of_tag(t) is None,
{
}

} // verus!
