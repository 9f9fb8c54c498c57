//! The term: one tagged machine word, and the objects that it may point to.
pub mod boxed;
pub mod builders;
pub mod classify;
pub mod compare;
pub mod compare_laws;
pub mod fmt;
pub mod immediate;
pub mod lterm;
pub mod primary;
