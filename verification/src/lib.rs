//! A minimal byte-addressable virtual machine with a five-opcode instruction
//! set: pointer-only addressing, wrapping byte subtraction, one sign-bit
//! conditional branch, and pluggable single-byte input/output endpoints.
//!
//! The machine executes a flat byte buffer that holds both the program and its
//! data. Each instruction is an opcode byte followed by zero, one or two
//! 32-bit little-endian pointer operands, each interpreted as an offset into
//! that same buffer.

pub mod io;
pub mod isa;
pub mod machine;
