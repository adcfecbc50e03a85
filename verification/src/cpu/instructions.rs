//! The operation groups of the instruction set.

pub mod addressing;
pub mod arithmetic;
pub mod branches;
pub mod decrement;
pub mod increment;
pub mod jumps;
pub mod logical;
pub mod registers;
pub mod shifts;
pub mod stackops;
pub mod system;
pub mod transfers;
