//! Running bytecode: the operations and what they tell the dispatch loop.
pub mod disp_result;
pub mod opcodes;
