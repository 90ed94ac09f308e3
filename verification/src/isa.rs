//! The instruction set: opcodes, decoded instructions, the error taxonomy,
//! and the specification-level decoder that the executable decoder is proved
//! against.

use vstd::prelude::*;

verus! {

/// One decoded instruction. Every operand is a pointer: a 32-bit unsigned
/// byte offset into the machine's memory, stored little-endian in the
/// instruction stream.
#[derive(Clone, Copy, Debug, PartialEq, Eq, Structural)]
pub enum Instruction {
    /// Opcode 0: stop the run loop.
    Hlt,
    /// Opcode 1: write the byte at the pointed-to address to the output sink.
    OutByte(u32),
    /// Opcode 2: if the byte at `srcptr` is below 128, set the program
    /// counter to `jmpptr`.
    BranchIfPlus { jmpptr: u32, srcptr: u32 },
    /// Opcode 3: subtract the byte at `srcptr` from the byte at `dstptr`,
    /// wrapping modulo 256, and store the result at `dstptr`.
    Sub { dstptr: u32, srcptr: u32 },
    /// Opcode 4: read one byte from the input source and store it at the
    /// pointed-to address.
    InByte(u32),
}

/// Why execution aborted. Every abort is fatal to the run: the machine
/// offers no trap or resumption mechanism.
#[derive(Clone, Copy, Debug, PartialEq, Eq, Structural)]
pub enum VmError {
    /// An opcode byte outside 0..=4, with the byte and its offset.
    Decode { opcode: u8, offset: usize },
    /// A memory access at or beyond the end of memory: a pointer operand, or
    /// the program counter itself while decoding.
    Bounds { addr: usize },
    /// The output sink refused a byte, or the input source could not supply
    /// one (failure or end of stream).
    Io,
}

/// The opcode bytes that decode to an instruction.
pub open spec fn valid_opcode(op: u8) -> bool {
    op <= 4
}

/// How many pointer operands follow the opcode byte.
pub open spec fn operand_count(op: u8) -> nat {
    if op == 0 {
        0
    } else if op == 2 || op == 3 {
        2
    } else {
        1
    }
}

/// Total encoded length of an instruction: the opcode byte plus four bytes
/// per pointer operand.
pub open spec fn instr_len(op: u8) -> int {
    1 + 4 * (operand_count(op) as int)
}

/// The 32-bit unsigned value stored little-endian at offset `p`.
pub open spec fn ptr_at(m: Seq<u8>, p: int) -> u32
    recommends
        0 <= p,
        p + 4 <= m.len(),
{
    (m[p] + m[p + 1] * 0x100 + m[p + 2] * 0x1_0000 + m[p + 3] * 0x100_0000) as u32
}

/// The instruction encoded at offset `p`, assuming a valid opcode there and
/// room for its operands.
pub open spec fn instr_at(m: Seq<u8>, p: int) -> Instruction
    recommends
        0 <= p < m.len(),
        valid_opcode(m[p]),
        p + instr_len(m[p]) <= m.len(),
{
    let op = m[p];
    if op == 0 {
        Instruction::Hlt
    } else if op == 1 {
        Instruction::OutByte(ptr_at(m, p + 1))
    } else if op == 2 {
        Instruction::BranchIfPlus { jmpptr: ptr_at(m, p + 1), srcptr: ptr_at(m, p + 5) }
    } else if op == 3 {
        Instruction::Sub { dstptr: ptr_at(m, p + 1), srcptr: ptr_at(m, p + 5) }
    } else {
        Instruction::InByte(ptr_at(m, p + 1))
    }
}

/// The offset of the first four-byte pointer read that runs past the end of
/// memory, for an instruction whose operands do not fit.
pub open spec fn first_oob_read(m: Seq<u8>, p: int) -> usize
    recommends
        0 <= p < m.len(),
        p + instr_len(m[p]) > m.len(),
{
    if p + 5 > m.len() {
        (p + 1) as usize
    } else {
        (p + 5) as usize
    }
}

/// The complete outcome of decoding at offset `p`: the instruction and the
/// offset just past it, or the error that decoding aborts with. Decoding
/// never touches the input or output streams and never mutates memory.
pub open spec fn decode_result(m: Seq<u8>, p: int) -> Result<(Instruction, int), VmError> {
    if !(0 <= p < m.len()) {
        Err(VmError::Bounds { addr: p as usize })
    } else if !valid_opcode(m[p]) {
        Err(VmError::Decode { opcode: m[p], offset: p as usize })
    } else if p + instr_len(m[p]) > m.len() {
        Err(VmError::Bounds { addr: first_oob_read(m, p) })
    } else {
        Ok((instr_at(m, p), p + instr_len(m[p])))
    }
}

/// Byte-wise subtraction modulo 256: the arithmetic `Sub` performs. It never
/// faults; no carry or flag is retained.
pub open spec fn byte_sub(x: u8, y: u8) -> u8 {
    if x - y < 0 {
        (x - y + 256) as u8
    } else {
        (x - y) as u8
    }
}

/// Law: a successful decode at `p` consumes exactly `1 + 4 × operand_count`
/// bytes — the returned continuation offset advances the program counter by
/// precisely the encoded length of the instruction found there.
pub proof fn lemma_decode_advance(m: Seq<u8>, p: int)
    requires
        decode_result(m, p) is Ok,
    ensures
        decode_result(m, p)->Ok_0.1 == p + 1 + 4 * operand_count(m[p]),
{
}

/// Law: an opcode byte of five or more never decodes; it yields a decode
/// error carrying that byte and its offset.
pub proof fn lemma_invalid_opcode_rejected(m: Seq<u8>, p: int)
    requires
        0 <= p < m.len(),
        m[p] >= 5,
    ensures
        decode_result(m, p) == Err::<(Instruction, int), VmError>(
            VmError::Decode { opcode: m[p], offset: p as usize },
        ),
{
}

} // verus!
