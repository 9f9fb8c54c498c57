//! Boxed objects: blocks of heap memory that begin with a header word.
pub mod box_header;
pub mod closure;
pub mod cons;
pub mod export;
pub mod external_pid;
pub mod tuple;

pub use self::box_header::{
    headerword_to_arity, headerword_to_boxtype, helper_get_const_from_boxed_term,
    helper_get_mut_from_boxed_term, BoxHeader, BoxTypeTag, BOXTYPETAG_BIGINTEGER,
    BOXTYPETAG_BINARY, BOXTYPETAG_CLOSURE, BOXTYPETAG_EXPORT, BOXTYPETAG_EXTERNALPID,
    BOXTYPETAG_EXTERNALPORT, BOXTYPETAG_EXTERNALREF, BOXTYPETAG_FLOAT, BOXTYPETAG_IMPORT,
    BOXTYPETAG_MAP, BOXTYPETAG_TUPLE,
};
pub use self::closure::Closure;
pub use self::cons::Cons;
pub use self::export::Export;
pub use self::external_pid::ExternalPid;
pub use self::tuple::Tuple;
