use rwa2::io::{ByteSink, ByteSource, IoFault, VecSink, VecSource};
use rwa2::isa::VmError;
use rwa2::machine::{MachineState, RunExit};

fn machine_with_input(memory: Vec<u8>, input: Vec<u8>) -> MachineState<VecSource, VecSink> {
    MachineState::new(memory, VecSource::new(input), VecSink::new())
}

fn machine(memory: Vec<u8>) -> MachineState<VecSource, VecSink> {
    machine_with_input(memory, vec![])
}

#[test]
fn bare_hlt_halts_immediately() {
    let mut m = machine_with_input(vec![0], vec![9]);
    assert_eq!(m.run(100), Ok(RunExit::Halted));
    assert!(!m.running);
    assert_eq!(m.pc, 1);
    assert_eq!(m.output.data, vec![] as Vec<u8>);
    assert_eq!(m.input.pos, 0);
}

#[test]
fn out_byte_emits_then_halts() {
    let mut m = machine(vec![1, 6, 0, 0, 0, 0, 65]);
    assert_eq!(m.run(100), Ok(RunExit::Halted));
    assert_eq!(m.output.data, vec![65]);
}

#[test]
fn out_byte_reads_memory_at_execution_time() {
    // The pointer targets the opcode byte itself, so the byte emitted is the
    // opcode of the emitting instruction.
    let mut m = machine(vec![1, 0, 0, 0, 0, 0]);
    assert_eq!(m.run(100), Ok(RunExit::Halted));
    assert_eq!(m.output.data, vec![1]);
}

#[test]
fn out_byte_out_of_range_is_a_bounds_error() {
    let mut m = machine(vec![1, 99, 0, 0, 0, 0]);
    assert_eq!(m.run(100), Err(VmError::Bounds { addr: 99 }));
    assert_eq!(m.output.data, vec![] as Vec<u8>);
}

#[test]
fn sub_wraps_modulo_256() {
    // dst holds 5, src holds 10: 5 - 10 wraps to 251.
    let mut m = machine(vec![3, 10, 0, 0, 0, 11, 0, 0, 0, 0, 5, 10]);
    assert_eq!(m.run(100), Ok(RunExit::Halted));
    assert_eq!(m.memory[10], 251);
    assert_eq!(m.memory[11], 10);
}

#[test]
fn sub_out_of_range_src_is_a_bounds_error() {
    let mut m = machine(vec![3, 0, 0, 0, 0, 99, 0, 0, 0]);
    assert_eq!(m.step(), Err(VmError::Bounds { addr: 99 }));
}

#[test]
fn branch_taken_on_127() {
    // Source byte 127 is "plus": the branch overwrites the program counter.
    let mut m = machine(vec![2, 10, 0, 0, 0, 9, 0, 0, 0, 127, 0]);
    assert_eq!(m.step(), Ok(()));
    assert_eq!(m.pc, 10);
}

#[test]
fn branch_not_taken_on_128() {
    // Source byte 128 has its sign bit set: the program counter just moves on.
    let mut m = machine(vec![2, 10, 0, 0, 0, 9, 0, 0, 0, 128, 0]);
    assert_eq!(m.step(), Ok(()));
    assert_eq!(m.pc, 9);
}

#[test]
fn branch_source_out_of_range_is_a_bounds_error() {
    let mut m = machine(vec![2, 0, 0, 0, 0, 99, 0, 0, 0]);
    assert_eq!(m.step(), Err(VmError::Bounds { addr: 99 }));
}

#[test]
fn in_byte_then_out_byte_echoes() {
    let mut m = machine_with_input(vec![4, 11, 0, 0, 0, 1, 11, 0, 0, 0, 0, 0], vec![0x42]);
    assert_eq!(m.run(100), Ok(RunExit::Halted));
    assert_eq!(m.output.data, vec![0x42]);
    assert_eq!(m.memory[11], 0x42);
}

#[test]
fn in_byte_on_exhausted_source_aborts_with_io_error() {
    let mut m = machine(vec![4, 0, 0, 0, 0]);
    assert_eq!(m.run(100), Err(VmError::Io));
    assert!(m.running);
    assert_eq!(m.pc, 0);
    assert_eq!(m.memory, vec![4, 0, 0, 0, 0]);
}

#[test]
fn in_byte_out_of_range_consumes_the_byte_then_aborts() {
    // The read from the source happens before the bounds check, so the byte
    // is gone even though nothing was stored.
    let mut m = machine_with_input(vec![4, 99, 0, 0, 0], vec![7]);
    assert_eq!(m.step(), Err(VmError::Bounds { addr: 99 }));
    assert_eq!(m.input.pos, 1);
    assert_eq!(m.memory, vec![4, 99, 0, 0, 0]);
}

#[test]
fn self_branch_never_terminates() {
    // The branch at offset 0 jumps back to offset 0 and its source byte is
    // always below 128: only the step budget stops the run.
    let mut m = machine(vec![2, 0, 0, 0, 0, 10, 0, 0, 0, 0, 7]);
    assert_eq!(m.run(1000), Ok(RunExit::OutOfFuel));
    assert!(m.running);
    assert_eq!(m.pc, 0);
    assert_eq!(m.run(1000), Ok(RunExit::OutOfFuel));
    assert_eq!(m.pc, 0);
}

#[test]
fn wide_pointer_reaches_high_addresses() {
    // The pointer 300 only decodes correctly if all four little-endian bytes
    // take part: its low byte alone would point at offset 44.
    let mut memory = vec![1, 44, 1, 0, 0, 0];
    memory.resize(300, 0);
    memory.push(77);
    let mut m = machine(memory);
    assert_eq!(m.run(100), Ok(RunExit::Halted));
    assert_eq!(m.output.data, vec![77]);
}

#[test]
fn run_resumes_where_it_stopped() {
    let mut m = machine(vec![1, 6, 0, 0, 0, 0, 65]);
    assert_eq!(m.run(1), Ok(RunExit::OutOfFuel));
    assert_eq!(m.pc, 5);
    assert_eq!(m.run(1), Ok(RunExit::Halted));
    assert_eq!(m.output.data, vec![65]);
}

#[test]
fn vec_source_hands_out_bytes_in_order_then_faults() {
    let mut s = VecSource::new(vec![10, 20]);
    assert_eq!(s.get(), Ok(10));
    assert_eq!(s.get(), Ok(20));
    assert_eq!(s.get(), Err(IoFault));
    assert_eq!(s.get(), Err(IoFault));
}

#[test]
fn vec_sink_appends_in_order() {
    let mut s = VecSink::new();
    assert_eq!(s.put(3), Ok(()));
    assert_eq!(s.put(1), Ok(()));
    assert_eq!(s.data, vec![3, 1]);
}
