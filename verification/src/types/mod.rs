//! The types that declarations speak of, and the errors of commands.

pub mod type_enum;
pub mod type_error;
