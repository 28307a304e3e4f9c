//! A CHIP-8 virtual machine core: opcode decoding, the machine state with its
//! instruction semantics, and the pseudo-random source behind the random-byte
//! instruction. Every executable function carries a contract over the
//! mathematical model in [`state`].

pub mod error;
pub mod instruction;
pub mod rng;
pub mod state;
pub mod chip8;
