//! Control-flow instructions of an 8-bit processor: relative and absolute
//! jumps, subroutine calls, returns and restart vectors, each executed
//! against a machine state whose effect is stated by `step`.

pub mod registers;
pub mod environment;
pub mod opcode;
pub mod opcode_jumps;
pub mod lemmas;
