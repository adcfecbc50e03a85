//! Register loads and stores across all addressing modes.

pub mod load;
pub mod store;
