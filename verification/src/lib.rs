//! Core of a virtual machine runtime for an actor-model language: the tagged
//! one-word term representation, the per-process combined stack and heap, the
//! boxed objects placed into it, the stack-frame opcodes and the process that
//! owns them.
pub mod bits;
pub mod defs;
pub mod fail;
pub mod term;
pub mod emulator;
pub mod beam;
pub mod bif;
