//! Disassembler and interpreter for Minix 2 executables built for the Intel 8086.
//!
//! The crate is split the way the machine is: `x86` holds the instruction
//! vocabulary, `disassembler` turns bytes into instructions and text,
//! `interpreter` runs a program in a virtual machine, and `minix` reads the
//! executable format. Every function carries a contract over the
//! mathematical model of the values it works on.

pub mod utils;
pub mod word;
pub mod text;
pub mod x86;
pub mod disassembler;
pub mod minix;
pub mod interpreter;
