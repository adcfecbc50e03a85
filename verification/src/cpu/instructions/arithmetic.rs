//! Add-with-carry, subtract-with-carry and the compare group.

pub mod add;
pub mod compare;
pub mod subtract;
