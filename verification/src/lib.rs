//! A model of the 8086 in 16-bit mode: it decodes machine code, prints each instruction as
//! assembly text, and runs it on a register file and a flat memory of 64 KiB.
//!
//! [`dispatch::step`] decodes and runs the instruction at the instruction pointer;
//! [`dispatch::run`] does so until the program ends. What an instruction does is stated over the
//! spec functions of [`execution`], what its bytes mean over those of [`dispatch`], and
//! [`assembly`] proves that the decoder inverts the assembler.

pub mod addressing;
pub mod arithmetic;
pub mod assembly;
pub mod control_transfer;
pub mod data_transfer;
pub mod decoding;
pub mod dispatch;
pub mod execution;
pub mod fault;
pub mod fields;
pub mod instruction;
pub mod memory;
pub mod registers;
pub mod text;
