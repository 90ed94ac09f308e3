//! The execution engine: it owns the memory buffer, the program counter, the
//! running flag, and the two byte-stream endpoints, and executes instructions
//! until a halt, a fatal abort, or an exhausted step budget.

use vstd::pervasive::VecAdditionalExecFns;
use vstd::prelude::*;

use crate::io::{ByteSink, ByteSource};
use crate::isa::{byte_sub, decode_result, instr_len, ptr_at, Instruction, VmError};

use byteorder::ByteOrder;

verus! {

/// Everything the contracts observe of a machine: the memory image, the
/// program counter, the running flag, the bytes the input source can still
/// supply, and the bytes the output sink has accepted so far.
#[verifier::ext_equal]
pub struct VmView {
    pub mem: Seq<u8>,
    pub pc: int,
    pub running: bool,
    pub input: Seq<u8>,
    pub output: Seq<u8>,
}

/// The unique state a successful step leads to, or `None` where no step from
/// `v` can succeed: a decode failure, an out-of-range pointer operand, or an
/// `InByte` with nothing left to read. Executing `OutByte` or `InByte` may
/// still fail at the stream even where this is `Some`; the step contract
/// covers that separately.
pub open spec fn step_view(v: VmView) -> Option<VmView> {
    match decode_result(v.mem, v.pc) {
        Err(_) => None,
        Ok((inst, q)) => match inst {
            Instruction::Hlt => Some(VmView { pc: q, running: false, ..v }),
            Instruction::OutByte(a) => if a < v.mem.len() {
                Some(VmView { pc: q, output: v.output.push(v.mem[a as int]), ..v })
            } else {
                None
            },
            Instruction::BranchIfPlus { jmpptr, srcptr } => if srcptr < v.mem.len() {
                Some(
                    VmView {
                        pc: if v.mem[srcptr as int] < 128 {
                            jmpptr as int
                        } else {
                            q
                        },
                        ..v
                    },
                )
            } else {
                None
            },
            Instruction::Sub { dstptr, srcptr } => if srcptr < v.mem.len() && dstptr
                < v.mem.len() {
                Some(
                    VmView {
                        pc: q,
                        mem: v.mem.update(
                            dstptr as int,
                            byte_sub(v.mem[dstptr as int], v.mem[srcptr as int]),
                        ),
                        ..v
                    },
                )
            } else {
                None
            },
            Instruction::InByte(a) => if v.input.len() > 0 && a < v.mem.len() {
                Some(
                    VmView {
                        pc: q,
                        mem: v.mem.update(a as int, v.input[0]),
                        input: v.input.drop_first(),
                        ..v
                    },
                )
            } else {
                None
            },
        },
    }
}

/// How a step from `v` can fail: with which error, and in which state it
/// leaves the machine. Every failure is fatal and leaves memory, the running
/// flag and the streams untouched — except an `InByte` whose pointer is out
/// of range, which has already consumed the byte it read before the bounds
/// check.
pub open spec fn step_failure(v: VmView, e: VmError, post: VmView) -> bool {
    match decode_result(v.mem, v.pc) {
        Err(e2) => e == e2 && post == v,
        Ok((inst, q)) => match inst {
            Instruction::Hlt => false,
            Instruction::OutByte(a) => if a >= v.mem.len() {
                e == (VmError::Bounds { addr: a as usize }) && post == v
            } else {
                e == VmError::Io && post == v
            },
            Instruction::BranchIfPlus { jmpptr, srcptr } => srcptr >= v.mem.len() && e == (
            VmError::Bounds { addr: srcptr as usize }) && post == v,
            Instruction::Sub { dstptr, srcptr } => if srcptr >= v.mem.len() {
                e == (VmError::Bounds { addr: srcptr as usize }) && post == v
            } else {
                dstptr >= v.mem.len() && e == (VmError::Bounds { addr: dstptr as usize }) && post
                    == v
            },
            Instruction::InByte(a) => (e == VmError::Io && post == v) || (v.input.len() > 0 && a
                >= v.mem.len() && e == (VmError::Bounds { addr: a as usize }) && post == (
            VmView { input: v.input.drop_first(), ..v })),
        },
    }
}

/// `v2` is what `v1` becomes after exactly `n` successful steps.
pub open spec fn steps_n(v1: VmView, v2: VmView, n: nat) -> bool
    decreases n,
{
    if n == 0 {
        v1 == v2
    } else {
        exists|vm: VmView| steps_n(v1, vm, (n - 1) as nat) && step_view(vm) == Some(v2)
    }
}

/// `v2` is reachable from `v1` by some number of successful steps.
pub open spec fn reaches(v1: VmView, v2: VmView) -> bool {
    exists|n: nat| steps_n(v1, v2, n)
}

/// Law: a decoded `BranchIfPlus` whose source pointer is in range always
/// succeeds, and it takes the branch — the next program counter becomes the
/// jump target — exactly when the byte at the source pointer is below 128;
/// otherwise the program counter just moves past the instruction. Nothing
/// else changes either way.
pub proof fn lemma_branch_condition(v: VmView, jmpptr: u32, srcptr: u32, q: int)
    requires
        decode_result(v.mem, v.pc) == Ok::<(Instruction, int), VmError>((
            Instruction::BranchIfPlus { jmpptr, srcptr },
            q,
        )),
        srcptr < v.mem.len(),
    ensures
        step_view(v) is Some,
        step_view(v)->Some_0.pc == if v.mem[srcptr as int] < 128 {
            jmpptr as int
        } else {
            q
        },
        step_view(v)->Some_0.mem == v.mem,
        step_view(v)->Some_0.running == v.running,
        step_view(v)->Some_0.input == v.input,
        step_view(v)->Some_0.output == v.output,
{
}

/// Law: an `InByte` decoded against an exhausted input source can only abort
/// with an I/O error that leaves the machine untouched — no successful step
/// exists there, so a run stops at once with nothing further executed.
pub proof fn lemma_exhausted_input_aborts(v: VmView, a: u32, q: int)
    requires
        decode_result(v.mem, v.pc) == Ok::<(Instruction, int), VmError>((
            Instruction::InByte(a),
            q,
        )),
        v.input.len() == 0,
    ensures
        step_view(v) is None,
        forall|e: VmError, post: VmView| step_failure(v, e, post) ==> e == VmError::Io && post
            == v,
{
}

/// Law: a `BranchIfPlus` whose jump target is its own opcode offset, taken
/// because the byte at its source pointer is below 128, steps the machine
/// back to exactly the state it was in.
pub proof fn lemma_self_branch_repeats(v: VmView)
    requires
        0 <= v.pc < v.mem.len(),
        v.mem[v.pc] == 2,
        v.pc + 9 <= v.mem.len(),
        ptr_at(v.mem, v.pc + 1) == v.pc,
        ptr_at(v.mem, v.pc + 5) < v.mem.len(),
        v.mem[ptr_at(v.mem, v.pc + 5) as int] < 128,
    ensures
        step_view(v) == Some(v),
{
    assert(instr_len(v.mem[v.pc]) == 9);
    assert(step_view(v)->Some_0 =~= v);
}

/// Law: a program sitting on such a self-targeting branch never terminates —
/// after every number of steps the machine is back in the very same state,
/// so no sequence of steps ever reaches a halt or a fault. Only an external
/// bound (the run's step budget) stops it.
pub proof fn lemma_self_branch_never_halts(v: VmView, n: nat)
    requires
        0 <= v.pc < v.mem.len(),
        v.mem[v.pc] == 2,
        v.pc + 9 <= v.mem.len(),
        ptr_at(v.mem, v.pc + 1) == v.pc,
        ptr_at(v.mem, v.pc + 5) < v.mem.len(),
        v.mem[ptr_at(v.mem, v.pc + 5) as int] < 128,
    ensures
        steps_n(v, v, n),
    decreases n,
{
    if n > 0 {
        lemma_self_branch_never_halts(v, (n - 1) as nat);
        lemma_self_branch_repeats(v);
        assert(steps_n(v, v, (n - 1) as nat) && step_view(v) == Some(v));
        assert(steps_n(v, v, n));
    }
}

/// Relies on `byteorder::LittleEndian::read_u32` (byteorder crate): assembles
/// the four bytes of the buffer, in little-endian order, into an unsigned
/// 32-bit value.
#[verifier::external_body]
fn le_read_u32(b0: u8, b1: u8, b2: u8, b3: u8) -> (r: u32)
    ensures
        r == b0 + b1 * 0x100 + b2 * 0x1_0000 + b3 * 0x100_0000,
{
    byteorder::LittleEndian::read_u32(&[b0, b1, b2, b3])
}

/// How a finished run ended: on a `Hlt` instruction, or because the caller's
/// step budget ran out while the machine was still running.
#[derive(Clone, Copy, Debug, PartialEq, Eq, Structural)]
pub enum RunExit {
    Halted,
    OutOfFuel,
}

/// The execution engine. It exclusively owns its memory buffer and its two
/// stream endpoints for the duration of a run; the caller supplies all three
/// and may inspect them between calls.
pub struct MachineState<I: ByteSource, O: ByteSink> {
    pub memory: Vec<u8>,
    pub pc: usize,
    pub running: bool,
    pub input: I,
    pub output: O,
}

impl<I: ByteSource, O: ByteSink> View for MachineState<I, O> {
    type V = VmView;

    open spec fn view(&self) -> VmView {
        VmView {
            mem: self.memory@,
            pc: self.pc as int,
            running: self.running,
            input: self.input.remaining(),
            output: self.output.written(),
        }
    }
}

impl<I: ByteSource, O: ByteSink> MachineState<I, O> {
    /// A machine over the given program-and-data image and stream endpoints,
    /// halted, with the program counter at the start of memory.
    pub fn new(memory: Vec<u8>, input: I, output: O) -> (m: MachineState<I, O>)
        ensures
            m.memory == memory,
            m.pc == 0,
            m.running == false,
            m.input == input,
            m.output == output,
    {
        MachineState { memory, pc: 0, running: false, input, output }
    }

    /// Decode the 4-byte little-endian pointer at the program counter and
    /// advance past it; a bounds error if the four bytes do not fit in
    /// memory. Touches nothing but the program counter.
    pub fn decode_pointer(&mut self) -> (r: Result<u32, VmError>)
        ensures
            final(self).memory == old(self).memory,
            final(self).running == old(self).running,
            final(self).input == old(self).input,
            final(self).output == old(self).output,
            old(self).pc + 4 <= old(self).memory@.len() ==> r == Ok::<u32, VmError>(
                ptr_at(old(self).memory@, old(self).pc as int),
            ) && final(self).pc == old(self).pc + 4,
            old(self).pc + 4 > old(self).memory@.len() ==> r == Err::<u32, VmError>(
                VmError::Bounds { addr: old(self).pc },
            ) && final(self).pc == old(self).pc,
    {
        let len = self.memory.len();
        if self.pc < len && len - self.pc >= 4 {
            let b0 = self.memory[self.pc];
            let b1 = self.memory[self.pc + 1];
            let b2 = self.memory[self.pc + 2];
            let b3 = self.memory[self.pc + 3];
            let v = le_read_u32(b0, b1, b2, b3);
            self.pc = self.pc + 4;
            Ok(v)
        } else {
            Err(VmError::Bounds { addr: self.pc })
        }
    }

    /// Decode the instruction at the program counter: one opcode byte, then
    /// the pointer operands that opcode requires. On success the program
    /// counter ends just past the instruction — it advances by exactly
    /// `1 + 4 × operand_count`. On failure nothing moves, and the error says
    /// why: an unknown opcode with its byte and offset, or an opcode or
    /// operand read past the end of memory. Decoding performs no I/O.
    pub fn read_instruction(&mut self) -> (r: Result<Instruction, VmError>)
        ensures
            final(self).memory == old(self).memory,
            final(self).running == old(self).running,
            final(self).input == old(self).input,
            final(self).output == old(self).output,
            match decode_result(old(self).memory@, old(self).pc as int) {
                Ok((inst, q)) => r == Ok::<Instruction, VmError>(inst) && final(self).pc == q,
                Err(e) => r == Err::<Instruction, VmError>(e) && final(self).pc == old(self).pc,
            },
    {
        let pc0 = self.pc;
        if pc0 >= self.memory.len() {
            return Err(VmError::Bounds { addr: pc0 });
        }
        let opcode = self.memory[pc0];
        if opcode > 4 {
            return Err(VmError::Decode { opcode, offset: pc0 });
        }
        self.pc = pc0 + 1;
        if opcode == 0 {
            Ok(Instruction::Hlt)
        } else if opcode == 1 {
            match self.decode_pointer() {
                Ok(p) => Ok(Instruction::OutByte(p)),
                Err(e) => {
                    self.pc = pc0;
                    Err(e)
                },
            }
        } else if opcode == 2 {
            match self.decode_pointer() {
                Ok(jmpptr) => match self.decode_pointer() {
                    Ok(srcptr) => Ok(Instruction::BranchIfPlus { jmpptr, srcptr }),
                    Err(e) => {
                        self.pc = pc0;
                        Err(e)
                    },
                },
                Err(e) => {
                    self.pc = pc0;
                    Err(e)
                },
            }
        } else if opcode == 3 {
            match self.decode_pointer() {
                Ok(dstptr) => match self.decode_pointer() {
                    Ok(srcptr) => Ok(Instruction::Sub { dstptr, srcptr }),
                    Err(e) => {
                        self.pc = pc0;
                        Err(e)
                    },
                },
                Err(e) => {
                    self.pc = pc0;
                    Err(e)
                },
            }
        } else {
            match self.decode_pointer() {
                Ok(p) => Ok(Instruction::InByte(p)),
                Err(e) => {
                    self.pc = pc0;
                    Err(e)
                },
            }
        }
    }

    /// Decode and execute one instruction. A successful step is exactly the
    /// transition `step_view` describes: `Hlt` clears the running flag,
    /// `OutByte` appends the pointed-to byte to the output, `BranchIfPlus`
    /// overwrites the program counter with the jump target exactly when the
    /// byte at `srcptr` is below 128, `Sub` stores the wrapping difference at
    /// `dstptr`, and `InByte` stores the next input byte at its pointer. A
    /// failed step returns the error `step_failure` prescribes and mutates
    /// nothing — save that an `InByte` aborting on bounds has already
    /// consumed its input byte.
    pub fn step(&mut self) -> (r: Result<(), VmError>)
        ensures
            match r {
                Ok(_) => step_view(old(self)@) == Some(final(self)@),
                Err(e) => step_failure(old(self)@, e, final(self)@),
            },
    {
        let pc0 = self.pc;
        let inst = match self.read_instruction() {
            Ok(i) => i,
            Err(e) => {
                return Err(e);
            },
        };
        match inst {
            Instruction::Hlt => {
                self.running = false;
                Ok(())
            },
            Instruction::OutByte(addr) => {
                let a = addr as usize;
                if a >= self.memory.len() {
                    self.pc = pc0;
                    return Err(VmError::Bounds { addr: a });
                }
                let b = self.memory[a];
                match self.output.put(b) {
                    Ok(_) => Ok(()),
                    Err(_) => {
                        self.pc = pc0;
                        Err(VmError::Io)
                    },
                }
            },
            Instruction::BranchIfPlus { jmpptr, srcptr } => {
                let s = srcptr as usize;
                if s >= self.memory.len() {
                    self.pc = pc0;
                    return Err(VmError::Bounds { addr: s });
                }
                if self.memory[s] < 128 {
                    self.pc = jmpptr as usize;
                }
                Ok(())
            },
            Instruction::Sub { dstptr, srcptr } => {
                let s = srcptr as usize;
                let d = dstptr as usize;
                if s >= self.memory.len() {
                    self.pc = pc0;
                    return Err(VmError::Bounds { addr: s });
                }
                if d >= self.memory.len() {
                    self.pc = pc0;
                    return Err(VmError::Bounds { addr: d });
                }
                let src = self.read(srcptr);
                let dst = self.read(dstptr);
                self.memory.set(d, dst.wrapping_sub(src));
                Ok(())
            },
            Instruction::InByte(addr) => {
                let a = addr as usize;
                match self.input.get() {
                    Err(_) => {
                        self.pc = pc0;
                        Err(VmError::Io)
                    },
                    Ok(b) => {
                        if a >= self.memory.len() {
                            self.pc = pc0;
                            return Err(VmError::Bounds { addr: a });
                        }
                        self.memory.set(a, b);
                        Ok(())
                    },
                }
            },
        }
    }

    /// Set the running flag and step repeatedly until `Hlt` clears it, a
    /// step aborts, or `fuel` steps have run. The caller chooses the step
    /// budget; the machine itself has no watchdog, so a program that never
    /// halts simply exhausts whatever budget it is given and can be resumed.
    /// A halt ends in a state reachable from the starting state by successful
    /// steps; an exhausted budget means exactly `fuel` successful steps ran
    /// with the machine still running; on an abort, the error is one a step
    /// could fail with from a reachable state.
    pub fn run(&mut self, fuel: u64) -> (r: Result<RunExit, VmError>)
        ensures
            match r {
                Ok(RunExit::Halted) => reaches(VmView { running: true, ..old(self)@ }, final(self)@)
                    && final(self)@.running == false,
                Ok(RunExit::OutOfFuel) => steps_n(
                    VmView { running: true, ..old(self)@ },
                    final(self)@,
                    fuel as nat,
                ) && final(self)@.running == true,
                Err(e) => final(self)@.running == true && exists|v: VmView|
                    reaches(VmView { running: true, ..old(self)@ }, v) && step_failure(
                        v,
                        e,
                        final(self)@,
                    ),
            },
    {
        self.running = true;
        let ghost start = self@;
        proof {
            assert(start =~= (VmView { running: true, ..old(self)@ }));
            assert(steps_n(start, start, 0));
        }
        let mut left: u64 = fuel;
        while self.running && left > 0
            invariant
                start == (VmView { running: true, ..old(self)@ }),
                left <= fuel,
                steps_n(start, self@, (fuel - left) as nat),
            decreases left,
        {
            let ghost pre = self@;
            let ghost done = (fuel - left) as nat;
            match self.step() {
                Ok(_) => {
                    proof {
                        assert(steps_n(start, pre, done) && step_view(pre) == Some(self@));
                        assert(steps_n(start, self@, done + 1));
                    }
                },
                Err(e) => {
                    proof {
                        assert(steps_n(start, pre, done));
                        assert(reaches(start, pre));
                        assert(step_failure(pre, e, self@));
                    }
                    return Err(e);
                },
            }
            left = left - 1;
        }
        proof {
            assert(steps_n(start, self@, (fuel - left) as nat));
            assert(reaches(start, self@));
        }
        if self.running {
            Ok(RunExit::OutOfFuel)
        } else {
            Ok(RunExit::Halted)
        }
    }

    /// The byte at the given pointer; the pointer must be in range.
    pub fn read(&self, ptr: u32) -> (b: u8)
        requires
            ptr < self.memory@.len(),
        ensures
            b == self.memory@[ptr as int],
    {
        self.memory[ptr as usize]
    }
}

} // verus!
