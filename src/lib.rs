//! An Intel 8080 processor core: flag word, register file, instruction
//! decoding and a step-by-step interpreter whose every transition is
//! stated as a function on an abstract machine state.

pub mod cpm;
pub mod cpu;
pub mod error;
pub mod isa;
pub mod opcode;
pub mod register;
