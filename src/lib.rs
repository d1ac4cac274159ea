//! An interpreter for the eight-command tape language, built as a step
//! machine whose every transition is proved against a model.

pub mod bracket;
pub mod echo;
pub mod error;
pub mod laws;
pub mod machine;
pub mod opcode;
