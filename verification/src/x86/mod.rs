//! The instruction vocabulary of the 8086: registers, operands, instructions.

pub mod register;
pub mod displacement;
pub mod address;
pub mod operand;
pub mod instruction;

pub use self::address::{Address, Memory};
pub use self::displacement::Displacement;
pub use self::instruction::{Instruction, IR};
pub use self::operand::Operand;
pub use self::register::Register;
