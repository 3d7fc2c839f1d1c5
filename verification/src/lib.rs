//! A decoder and text formatter for x86-64 machine code.
//!
//! [`decode::decode`] turns the bytes at the start of a buffer into an
//! [`instruction::Instruction`]; [`format::format`] renders one as assembly text.

pub mod text;
pub mod error;
pub mod registers;
pub mod bytes;
pub mod prefix;
pub mod instruction;
pub mod template;
pub mod opcode;
pub mod modrm;
pub mod operands;
pub mod decode;
pub mod format;
pub mod truncation;
pub mod wellformed;
