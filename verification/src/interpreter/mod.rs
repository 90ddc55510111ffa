//! The virtual machine: registers, flags, memory and the execution of
//! instructions.

pub mod error;
pub mod flag_set;
pub mod memory;
pub mod register_set;
pub mod state;
pub mod semantics;
pub mod vm;
pub mod opcodes;
pub mod syscall;
pub mod machine;
pub mod loader;
pub mod theorems;

pub use self::error::{InterpreterError, OpcodeExecErrors};
pub use self::flag_set::{Flag, FlagSet};
pub use self::memory::Memory;
pub use self::register_set::RegisterSet;
pub use self::vm::VM;
pub use self::loader::{Execution, Interpretable};
