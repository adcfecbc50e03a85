//! Byte, word and stack access primitives of the processor.

pub mod byte;
pub mod stack;
pub mod word;
