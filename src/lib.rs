//! Execution core of a user-mode x86-64 emulator: register and memory state,
//! operand resolution, the flag engine, instruction handlers and the error model.

pub mod registers;
pub mod flags;
pub mod errors;
pub mod memory;
pub mod decoded;
pub mod axecutor;
pub mod operand;
pub mod add;
pub mod pop;
pub mod dispatch;
pub mod laws;

pub use axecutor::Axecutor;
pub use errors::AxError;
pub use operand::{MemOperand, Operand};
