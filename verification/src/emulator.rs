//! The machinery of one running process: its memory, its context, its mailbox.
pub mod atom;
pub mod code_srv;
pub mod export;
pub mod function;
pub mod gen_atoms;
pub mod heap;
pub mod mailbox;
pub mod mfa;
pub mod process;
pub mod runtime_ctx;
pub mod scheduler;
