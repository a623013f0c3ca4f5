//! The chunk: an append-only container pairing the instruction byte stream
//! with a constant pool, plus the builder primitives a compiler uses to
//! emit it and the one sanctioned exception to append-only, the two-byte
//! back-patch of a previously emitted offset.

use vstd::prelude::*;

use crate::op::Op;
use crate::op::op_tag;

verus! {

/// A literal value held in a chunk's constant pool: a number, or a string
/// (also used for identifiers naming globals, fields and callees).
#[derive(Debug, PartialEq)]
pub enum Value {
    Num(i64),
    Str(String),
}

impl Clone for Value {
    /// A clone is equal to the original, variant and payload alike.
    fn clone(&self) -> (r: Value)
        ensures
            r == *self,
    {
        match self {
            Value::Num(n) => Value::Num(*n),
            Value::Str(s) => Value::Str(s.clone()),
        }
    }
}

/// One compiled unit: the linear instruction stream `code` and the ordered
/// constant pool `constants` that single-byte index operands in `code`
/// refer to. The builder performs no bounds validation: a well-formed
/// stream is the emitting compiler's responsibility.
#[derive(Clone, Debug)]
pub struct Chunk {
    pub code: Vec<u8>,
    pub constants: Vec<Value>,
}

impl Default for Chunk {
    /// An empty chunk: no code, no constants.
    fn default() -> (c: Chunk)
        ensures
            c.code@ == Seq::<u8>::empty(),
            c.constants@ == Seq::<Value>::empty(),
    {
        Chunk { code: Vec::new(), constants: Vec::new() }
    }
}

impl Chunk {
    /// Append one instruction tag byte.
    pub fn push_op(&mut self, op: Op)
        requires
            old(self).code@.len() < usize::MAX,
        ensures
            final(self).code@ == old(self).code@.push(op_tag(op)),
            final(self).constants@ == old(self).constants@,
    {
        let t = op.to_byte();
        self.push_u8(t);
    }

    /// Append one raw operand byte.
    pub fn push_u8(&mut self, val: u8)
        requires
            old(self).code@.len() < usize::MAX,
        ensures
            final(self).code@ == old(self).code@.push(val),
            final(self).constants@ == old(self).constants@,
    {
        self.code.push(val)
    }

    /// Append `val` to the constant pool and return its index: the pool's
    /// length before the push. No deduplication takes place, so pool order
    /// equals push order and repeated pushes of equal values get distinct,
    /// consecutive indices.
    pub fn push_constant(&mut self, val: Value) -> (idx: usize)
        requires
            old(self).constants@.len() < usize::MAX,
        ensures
            idx == old(self).constants@.len(),
            final(self).constants@ == old(self).constants@.push(val),
            final(self).code@ == old(self).code@,
    {
        let idx = self.constants.len();
        self.constants.push(val);
        idx
    }

    /// Append two raw operand bytes in order: `a` then `b`. For a 16-bit
    /// offset, `a` is the high byte and `b` the low byte (big-endian).
    pub fn push_bytes(&mut self, a: u8, b: u8)
        requires
            old(self).code@.len() + 2 <= usize::MAX,
        ensures
            final(self).code@ == old(self).code@.push(a).push(b),
            final(self).constants@ == old(self).constants@,
    {
        self.push_u8(a);
        self.push_u8(b);
    }

    /// Overwrite the two bytes at `at` and `at + 1` with `a` then `b`: the
    /// back-patch of a placeholder offset once its target is known, the
    /// only mutation of already emitted code. Everything else in the chunk
    /// is unchanged.
    pub fn patch_bytes(&mut self, at: usize, a: u8, b: u8)
        requires
            at + 1 < old(self).code@.len(),
        ensures
            final(self).code@ == old(self).code@.update(at as int, a).update(at + 1, b),
            final(self).constants@ == old(self).constants@,
    {
        let _n: usize = self.code.len();
        self.code.set(at, a);
        self.code.set(at + 1, b);
    }
}

/// Constant-pool indices are stable: pushing `v1` and then `v2` onto pool
/// `pool` appends them in push order, the first at index `pool.len()` and
/// the second at the distinct index `pool.len() + 1`, with every earlier
/// entry untouched.
pub proof fn lemma_push_constant_stable(pool: Seq<Value>, v1: Value, v2: Value)
    ensures
        pool.push(v1).push(v2) =~= pool + seq![v1, v2],
        pool.push(v1).push(v2)[pool.len() as int] == v1,
        pool.push(v1).push(v2)[pool.len() as int + 1] == v2,
        pool.len() as int != pool.len() as int + 1,
        forall|i: int| 0 <= i < pool.len() ==> pool.push(v1).push(v2)[i] == pool[i],
{
}

} // verus!
