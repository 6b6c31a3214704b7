//! Transaction analytics: the validation of its inputs and its fee engine.

pub mod fees;
pub mod types;
pub mod validation;
