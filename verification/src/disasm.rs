//! The decoder and disassembler: walks a chunk's byte stream from offset 0,
//! decodes one instruction at a time using each opcode's fixed operand
//! shape, resolves constant-pool references, and either yields the full
//! trace or faults on the first malformed byte. This module is the
//! authoritative statement of every opcode's operand layout: the spec
//! functions here say, byte for byte, what a well-formed stream means.

use vstd::prelude::*;

use crate::chunk::Chunk;
use crate::chunk::Value;
use crate::op::OP_MAX;
use crate::op::Op;
use crate::op::op_of_tag;
use crate::op::op_tag;
use crate::op::spec_operand_len;

verus! {

/// One decoded instruction: the opcode together with its operand values,
/// read out of the byte stream. Raw index operands stay raw here;
/// resolution against the constant pool happens in [`Line`].
#[derive(Clone, Copy, Debug, PartialEq, Eq, Structural)]
pub enum Instr {
    Add,
    Sub,
    Eq,
    Lte,
    Intersect { count: u8 },
    Union { count: u8 },
    Print { count: u8 },
    Constant { idx: u8 },
    Pop,
    Call { count: u8, name_idx: u8 },
    TailCall { count: u8, name_idx: u8 },
    Extends { skip: u16 },
    PanicExtends { skip: u16 },
    Jump { offset: u16 },
    Number,
    String,
    PopCallFrame,
    MakeObj { count: u8 },
    SetLocal { idx: u8 },
    GetLocal { idx: u8 },
    SetGlobal { idx: u8 },
    GetGlobal { idx: u8 },
}

/// A decode-time fault. Every fault reports the byte offset of the
/// instruction's tag byte, and each variant carries what triggered it:
/// a tag byte above [`OP_MAX`], an opcode whose operands run past the end
/// of the stream, or a constant-pool index past the end of the pool.
#[derive(Clone, Copy, Debug, PartialEq, Eq, Structural)]
pub enum DecodeError {
    MalformedTag { offset: usize, tag: u8 },
    Truncated { offset: usize, op: Op },
    InvalidConstant { offset: usize, idx: u8 },
}

/// One line of the disassembly trace: the instruction's start offset, the
/// decoded instruction, and, where the instruction carries a constant-pool
/// index, the value that index resolves to.
#[derive(Debug, PartialEq)]
pub struct Line {
    pub offset: usize,
    pub instr: Instr,
    pub resolved: Option<Value>,
}

/// The 16-bit value encoded big-endian as high byte `a`, low byte `b`.
pub open spec fn be16(a: u8, b: u8) -> u16 {
    (a * 256 + b) as u16
}

/// The high byte of `v`'s big-endian encoding.
pub open spec fn be_hi(v: u16) -> u8 {
    (v / 256) as u8
}

/// The low byte of `v`'s big-endian encoding.
pub open spec fn be_lo(v: u16) -> u8 {
    (v % 256) as u8
}

/// The opcode of a decoded instruction.
pub open spec fn instr_op(instr: Instr) -> Op {
    match instr {
        Instr::Add => Op::Add,
        Instr::Sub => Op::Sub,
        Instr::Eq => Op::Eq,
        Instr::Lte => Op::Lte,
        Instr::Intersect { .. } => Op::Intersect,
        Instr::Union { .. } => Op::Union,
        Instr::Print { .. } => Op::Print,
        Instr::Constant { .. } => Op::Constant,
        Instr::Pop => Op::Pop,
        Instr::Call { .. } => Op::Call,
        Instr::TailCall { .. } => Op::TailCall,
        Instr::Extends { .. } => Op::Extends,
        Instr::PanicExtends { .. } => Op::PanicExtends,
        Instr::Jump { .. } => Op::Jump,
        Instr::Number => Op::Number,
        Instr::String => Op::String,
        Instr::PopCallFrame => Op::PopCallFrame,
        Instr::MakeObj { .. } => Op::MakeObj,
        Instr::SetLocal { .. } => Op::SetLocal,
        Instr::GetLocal { .. } => Op::GetLocal,
        Instr::SetGlobal { .. } => Op::SetGlobal,
        Instr::GetGlobal { .. } => Op::GetGlobal,
    }
}

/// The operand bytes of an instruction's encoding, in stream order:
/// nothing, one byte, two single bytes, or a big-endian 16-bit value.
pub open spec fn instr_operand_bytes(instr: Instr) -> Seq<u8> {
    match instr {
        Instr::Add => seq![],
        Instr::Sub => seq![],
        Instr::Eq => seq![],
        Instr::Lte => seq![],
        Instr::Intersect { count } => seq![count],
        Instr::Union { count } => seq![count],
        Instr::Print { count } => seq![count],
        Instr::Constant { idx } => seq![idx],
        Instr::Pop => seq![],
        Instr::Call { count, name_idx } => seq![count, name_idx],
        Instr::TailCall { count, name_idx } => seq![count, name_idx],
        Instr::Extends { skip } => seq![be_hi(skip), be_lo(skip)],
        Instr::PanicExtends { skip } => seq![be_hi(skip), be_lo(skip)],
        Instr::Jump { offset } => seq![be_hi(offset), be_lo(offset)],
        Instr::Number => seq![],
        Instr::String => seq![],
        Instr::PopCallFrame => seq![],
        Instr::MakeObj { count } => seq![count],
        Instr::SetLocal { idx } => seq![idx],
        Instr::GetLocal { idx } => seq![idx],
        Instr::SetGlobal { idx } => seq![idx],
        Instr::GetGlobal { idx } => seq![idx],
    }
}

/// The full encoding of an instruction: its opcode's tag byte followed by
/// its operand bytes.
pub open spec fn instr_bytes(instr: Instr) -> Seq<u8> {
    seq![op_tag(instr_op(instr))] + instr_operand_bytes(instr)
}

/// The constant-pool index an instruction carries, if any: `Constant`,
/// `Call`/`TailCall` (the callee name) and `SetGlobal`/`GetGlobal` (the
/// global's name) refer to the pool; no other opcode does.
pub open spec fn const_index(instr: Instr) -> Option<u8> {
    match instr {
        Instr::Constant { idx } => Some(idx),
        Instr::Call { name_idx, .. } => Some(name_idx),
        Instr::TailCall { name_idx, .. } => Some(name_idx),
        Instr::SetGlobal { idx } => Some(idx),
        Instr::GetGlobal { idx } => Some(idx),
        _ => None,
    }
}

/// Whether one instruction decodes at offset `i` of `code`: the tag byte
/// is a valid opcode and all of its operand bytes are present.
pub open spec fn decode_ok(code: Seq<u8>, i: int) -> bool {
    &&& 0 <= i < code.len()
    &&& op_of_tag(code[i]) is Some
    &&& i + 1 + spec_operand_len(op_of_tag(code[i])->Some_0) <= code.len()
}

/// The instruction that decodes at offset `i` of `code`: the opcode named
/// by the tag byte, with its operands read from the following bytes per
/// the operand-shape table.
pub open spec fn spec_decode(code: Seq<u8>, i: int) -> Instr
    recommends
        decode_ok(code, i),
{
    match op_of_tag(code[i])->Some_0 {
        Op::Add => Instr::Add,
        Op::Sub => Instr::Sub,
        Op::Eq => Instr::Eq,
        Op::Lte => Instr::Lte,
        Op::Intersect => Instr::Intersect { count: code[i + 1] },
        Op::Union => Instr::Union { count: code[i + 1] },
        Op::Print => Instr::Print { count: code[i + 1] },
        Op::Constant => Instr::Constant { idx: code[i + 1] },
        Op::Pop => Instr::Pop,
        Op::Call => Instr::Call { count: code[i + 1], name_idx: code[i + 2] },
        Op::TailCall => Instr::TailCall { count: code[i + 1], name_idx: code[i + 2] },
        Op::Extends => Instr::Extends { skip: be16(code[i + 1], code[i + 2]) },
        Op::PanicExtends => Instr::PanicExtends { skip: be16(code[i + 1], code[i + 2]) },
        Op::Jump => Instr::Jump { offset: be16(code[i + 1], code[i + 2]) },
        Op::Number => Instr::Number,
        Op::String => Instr::String,
        Op::PopCallFrame => Instr::PopCallFrame,
        Op::MakeObj => Instr::MakeObj { count: code[i + 1] },
        Op::SetLocal => Instr::SetLocal { idx: code[i + 1] },
        Op::GetLocal => Instr::GetLocal { idx: code[i + 1] },
        Op::SetGlobal => Instr::SetGlobal { idx: code[i + 1] },
        Op::GetGlobal => Instr::GetGlobal { idx: code[i + 1] },
    }
}

/// The fault raised when no instruction decodes at offset `i`: a malformed
/// tag when the tag byte names no opcode, a truncation when its operands
/// run past the end of the stream.
pub open spec fn spec_decode_err(code: Seq<u8>, i: int) -> DecodeError
    recommends
        0 <= i < code.len(),
        !decode_ok(code, i),
{
    match op_of_tag(code[i]) {
        None => DecodeError::MalformedTag { offset: i as usize, tag: code[i] },
        Some(op) => DecodeError::Truncated { offset: i as usize, op },
    }
}

/// Whether an instruction's constant-pool reference, if it has one, lies
/// within the pool.
pub open spec fn resolves(instr: Instr, constants: Seq<Value>) -> bool {
    match const_index(instr) {
        Some(idx) => idx < constants.len(),
        None => true,
    }
}

/// The pool value an instruction's constant-pool reference resolves to,
/// or `None` for an instruction that carries no such reference.
pub open spec fn spec_resolved(instr: Instr, constants: Seq<Value>) -> Option<Value>
    recommends
        resolves(instr, constants),
{
    match const_index(instr) {
        Some(idx) => Some(constants[idx as int]),
        None => None,
    }
}

/// The disassembly of `code` from offset `i` to the end, against constant
/// pool `constants`: the trace lines of every instruction in stream order,
/// or the first fault encountered. Each instruction starts where the
/// previous one's operands ended, so every byte is consumed exactly once.
pub open spec fn spec_disasm(code: Seq<u8>, constants: Seq<Value>, i: int) -> Result<
    Seq<Line>,
    DecodeError,
>
    recommends
        0 <= i <= code.len(),
    decreases code.len() - i,
    when 0 <= i <= code.len()
{
    if i >= code.len() {
        Ok(Seq::empty())
    } else if !decode_ok(code, i) {
        Err(spec_decode_err(code, i))
    } else {
        let instr = spec_decode(code, i);
        if !resolves(instr, constants) {
            Err(DecodeError::InvalidConstant { offset: i as usize, idx: const_index(instr)->Some_0 })
        } else {
            let line = Line {
                offset: i as usize,
                instr,
                resolved: spec_resolved(instr, constants),
            };
            match spec_disasm(code, constants, i + 1 + spec_operand_len(instr_op(instr))) {
                Ok(rest) => Ok(seq![line] + rest),
                Err(e) => Err(e),
            }
        }
    }
}

/// Read the big-endian 16-bit value with high byte `a` and low byte `b`.
pub fn be16_join(a: u8, b: u8) -> (v: u16)
    ensures
        v == be16(a, b),
{
    proof {
        assert(((a as u16) << 8u16) | (b as u16) == a * 256 + b) by (bit_vector);
    }
    ((a as u16) << 8) | (b as u16)
}

/// Decode the one instruction starting at offset `pos` of `code`. On
/// success, return it with the offset just past its operands; otherwise
/// report the malformed-tag or truncated-instruction fault at `pos`.
/// Constant-pool references are not checked here.
pub fn decode_at(code: &Vec<u8>, pos: usize) -> (r: Result<(Instr, usize), DecodeError>)
    requires
        pos < code@.len(),
    ensures
        r is Ok <==> decode_ok(code@, pos as int),
        r matches Ok(p) ==> {
            &&& p.0 == spec_decode(code@, pos as int)
            &&& p.1 == pos + 1 + spec_operand_len(instr_op(p.0))
            &&& p.1 <= code@.len()
        },
        r matches Err(e) ==> e == spec_decode_err(code@, pos as int),
{
    let t = code[pos];
    match Op::from_byte(t) {
        None => Err(DecodeError::MalformedTag { offset: pos, tag: t }),
        Some(op) => {
            let n = op.operand_len();
            let len = code.len();
            if len - pos - 1 < n {
                Err(DecodeError::Truncated { offset: pos, op })
            } else {
                let instr = match op {
                    Op::Add => Instr::Add,
                    Op::Sub => Instr::Sub,
                    Op::Eq => Instr::Eq,
                    Op::Lte => Instr::Lte,
                    Op::Intersect => Instr::Intersect { count: code[pos + 1] },
                    Op::Union => Instr::Union { count: code[pos + 1] },
                    Op::Print => Instr::Print { count: code[pos + 1] },
                    Op::Constant => Instr::Constant { idx: code[pos + 1] },
                    Op::Pop => Instr::Pop,
                    Op::Call => Instr::Call {
                        count: code[pos + 1],
                        name_idx: code[pos + 2],
                    },
                    Op::TailCall => Instr::TailCall {
                        count: code[pos + 1],
                        name_idx: code[pos + 2],
                    },
                    Op::Extends => Instr::Extends {
                        skip: be16_join(code[pos + 1], code[pos + 2]),
                    },
                    Op::PanicExtends => Instr::PanicExtends {
                        skip: be16_join(code[pos + 1], code[pos + 2]),
                    },
                    Op::Jump => Instr::Jump { offset: be16_join(code[pos + 1], code[pos + 2]) },
                    Op::Number => Instr::Number,
                    Op::String => Instr::String,
                    Op::PopCallFrame => Instr::PopCallFrame,
                    Op::MakeObj => Instr::MakeObj { count: code[pos + 1] },
                    Op::SetLocal => Instr::SetLocal { idx: code[pos + 1] },
                    Op::GetLocal => Instr::GetLocal { idx: code[pos + 1] },
                    Op::SetGlobal => Instr::SetGlobal { idx: code[pos + 1] },
                    Op::GetGlobal => Instr::GetGlobal { idx: code[pos + 1] },
                };
                Ok((instr, pos + 1 + n))
            }
        },
    }
}

/// The constant-pool index `instr` carries, if any.
pub fn instr_const_index(instr: &Instr) -> (r: Option<u8>)
    ensures
        r == const_index(*instr),
{
    match instr {
        Instr::Constant { idx } => Some(*idx),
        Instr::Call { name_idx, .. } => Some(*name_idx),
        Instr::TailCall { name_idx, .. } => Some(*name_idx),
        Instr::SetGlobal { idx } => Some(*idx),
        Instr::GetGlobal { idx } => Some(*idx),
        _ => None,
    }
}

/// Disassemble the whole chunk: decode every instruction from offset 0 in
/// stream order, resolving each constant-pool reference to its value, and
/// return one trace line per instruction. An empty chunk yields an empty
/// trace. The walk aborts on the first fault — a malformed tag, a
/// truncated instruction, or an out-of-range constant index — reporting
/// the offset of the instruction that triggered it, exactly as
/// [`spec_disasm`] states.
pub fn disassemble(chunk: &Chunk) -> (r: Result<Vec<Line>, DecodeError>)
    ensures
        r is Ok <==> spec_disasm(chunk.code@, chunk.constants@, 0) is Ok,
        r matches Ok(lines) ==> lines@ == spec_disasm(chunk.code@, chunk.constants@, 0)->Ok_0,
        r matches Err(e) ==> e == spec_disasm(chunk.code@, chunk.constants@, 0)->Err_0,
{
    let ghost code = chunk.code@;
    let ghost constants = chunk.constants@;
    let mut lines: Vec<Line> = Vec::new();
    let mut i: usize = 0;
    let len = chunk.code.len();
    while i < len
        invariant
            i <= len,
            len == code.len(),
            code == chunk.code@,
            constants == chunk.constants@,
            spec_disasm(code, constants, 0) == (match spec_disasm(code, constants, i as int) {
                Ok(rest) => Ok::<Seq<Line>, DecodeError>(lines@ + rest),
                Err(e) => Err::<Seq<Line>, DecodeError>(e),
            }),
        decreases len - i,
    {
        match decode_at(&chunk.code, i) {
            Err(e) => {
                return Err(e);
            },
            Ok((instr, next)) => {
                let resolved: Option<Value> = match instr_const_index(&instr) {
                    Some(idx) => {
                        if (idx as usize) < chunk.constants.len() {
                            Some(chunk.constants[idx as usize].clone())
                        } else {
                            return Err(
                                DecodeError::InvalidConstant { offset: i, idx },
                            );
                        }
                    },
                    None => None,
                };
                let line = Line { offset: i, instr, resolved };
                proof {
                    let rest_start = i + 1 + spec_operand_len(instr_op(instr));
                    if spec_disasm(code, constants, rest_start) is Ok {
                        let rest = spec_disasm(code, constants, rest_start)->Ok_0;
                        assert(lines@ + (seq![line] + rest) =~= lines@.push(line) + rest);
                    }
                }
                lines.push(line);
                i = next;
            },
        }
    }
    proof {
        assert(spec_disasm(code, constants, len as int) == Ok::<Seq<Line>, DecodeError>(
            Seq::empty(),
        ));
        assert(lines@ + Seq::<Line>::empty() =~= lines@);
    }
    Ok(lines)
}

/// Splitting a 16-bit value big-endian and rejoining the two bytes gives
/// the value back, and joining two bytes then splitting gives the bytes
/// back: the offset encoding loses nothing in either direction.
pub proof fn lemma_be16_round_trip(a: u8, b: u8, v: u16)
    ensures
        be16(be_hi(v), be_lo(v)) == v,
        be_hi(be16(a, b)) == a,
        be_lo(be16(a, b)) == b,
{
    assert((v / 256) * 256 + (v % 256) == v) by (nonlinear_arith);
    assert((a * 256 + b) / 256 == a) by (nonlinear_arith);
    assert((a * 256 + b) % 256 == b) by (nonlinear_arith);
}

/// Round-trip: an instruction encoded per the operand-shape table decodes
/// back to itself, wherever the encoding is followed by further bytes, and
/// its length is exactly one tag byte plus the opcode's operand width.
pub proof fn lemma_encode_decode(instr: Instr, rest: Seq<u8>)
    ensures
        instr_bytes(instr).len() == 1 + spec_operand_len(instr_op(instr)),
        decode_ok(instr_bytes(instr) + rest, 0),
        spec_decode(instr_bytes(instr) + rest, 0) == instr,
{
    let bytes = instr_bytes(instr) + rest;
    crate::op::lemma_tag_round_trip(instr_op(instr));
    assert(bytes[0] == op_tag(instr_op(instr)));
    match instr {
        Instr::Extends { skip } => {
            lemma_be16_round_trip(0, 0, skip);
        },
        Instr::PanicExtends { skip } => {
            lemma_be16_round_trip(0, 0, skip);
        },
        Instr::Jump { offset } => {
            lemma_be16_round_trip(0, 0, offset);
        },
        _ => {
        },
    }
}

/// Round-trip through the pool: an instruction that references the index
/// `push_constant` handed back for `v` resolves, against the grown pool,
/// to that same value `v`.
pub proof fn lemma_resolves_pushed_value(pool: Seq<Value>, v: Value, instr: Instr)
    requires
        pool.len() < 256,
        const_index(instr) == Some(pool.len() as u8),
    ensures
        resolves(instr, pool.push(v)),
        spec_resolved(instr, pool.push(v)) == Some(v),
{
}

/// Every tag byte `t <= OP_MAX`, given the operand bytes its opcode calls
/// for, decodes successfully and consumes exactly `1 + spec_operand_len`
/// bytes: the tag and that opcode's operand count, no more and no fewer.
pub proof fn lemma_valid_tag_decodes(code: Seq<u8>, i: int)
    requires
        0 <= i < code.len(),
        code[i] <= OP_MAX,
        i + 1 + spec_operand_len(op_of_tag(code[i])->Some_0) <= code.len(),
    ensures
        decode_ok(code, i),
        instr_op(spec_decode(code, i)) == op_of_tag(code[i])->Some_0,
        instr_bytes(spec_decode(code, i)).len() == 1 + spec_operand_len(
            op_of_tag(code[i])->Some_0,
        ),
{
}

/// Every tag byte above [`OP_MAX`] makes the stream undecodable at its
/// offset: the disassembly of a stream that reaches such a byte faults
/// with a malformed-tag error naming that offset and that byte.
pub proof fn lemma_invalid_tag_faults(code: Seq<u8>, constants: Seq<Value>, i: int)
    requires
        0 <= i < code.len(),
        code[i] > OP_MAX,
    ensures
        !decode_ok(code, i),
        spec_disasm(code, constants, i) == Err::<Seq<Line>, DecodeError>(
            DecodeError::MalformedTag { offset: i as usize, tag: code[i] },
        ),
{
}

} // verus!
