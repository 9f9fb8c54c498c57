//! Built-in functions: the library functions that are part of the runtime.
//! The caller checks the number of arguments before it calls one.
pub mod bif_compare;
pub mod bif_sys;
