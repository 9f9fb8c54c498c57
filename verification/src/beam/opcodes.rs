//! The bytecode operations.
pub mod op_memory;
