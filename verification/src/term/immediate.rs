//! Nested raw encoding of immediate values, for compact storage of operands.
//!
//! Term bits are: `.... cc bb aa PP`
//!
//! Here "PP" is the primary tag, which is `Immediate` for all of these, and
//! "aa", two bits, is the tag `Immediate1`. Where "aa" is `Immed2`, "bb" is the
//! tag `Immediate2`, and where that is `Immed3`, "cc" is the tag `Immediate3`.
//! The value stands above the last tag.
use vstd::prelude::*;
use crate::defs::{Word, MAX_FPREGS, MAX_XREGS};

pub mod imm1;
pub mod imm2;
pub mod imm3;

pub use self::imm1::{
    combine_imm1_prefix_and_val, get_imm1_prefix, get_imm1_tag, get_imm1_value, Immediate1,
    IMM1_IMM2_PREFIX, IMM1_PID_PREFIX, IMM1_PORT_PREFIX, IMM1_PREFIX, IMM1_SMALL_PREFIX,
};
pub use self::imm2::{
    combine_imm2_prefix_and_val, get_imm2_prefix, get_imm2_tag, get_imm2_value, Immediate2,
    IMM2_ATOM_PREFIX, IMM2_CATCH_PREFIX, IMM2_IMM3_PREFIX, IMM2_PREFIX, IMM2_SPECIAL_PREFIX,
};
pub use self::imm3::{
    create_imm3, get_imm3_prefix, get_imm3_tag, imm3_value, Immediate3, IMM3_FPREG_PREFIX,
    IMM3_LABEL_PREFIX, IMM3_PREFIX, IMM3_XREG_PREFIX, IMM3_YREG_PREFIX,
};

verus! {

//
// Construction
//
/// Create a raw value for a term from atom index
#[inline]
pub fn make_atom_raw(val: Word) -> (r: Word)
    ensures
        r == imm2::spec_combine_imm2(val, IMM2_ATOM_PREFIX),
        imm2::spec_imm2_prefix(r) == IMM2_ATOM_PREFIX,
        val < imm2::IMM2_VALUE_RANGE ==> imm2::spec_imm2_value(r) == val,
{
    combine_imm2_prefix_and_val(val, IMM2_ATOM_PREFIX)
}

/// Create a raw value for a pid term from process index
#[inline]
pub fn make_pid_raw(pindex: Word) -> (r: Word)
    ensures
        r == imm1::spec_combine_imm1(pindex, IMM1_PID_PREFIX),
        imm1::spec_imm1_prefix(r) == IMM1_PID_PREFIX,
        pindex < imm1::IMM1_VALUE_RANGE ==> imm1::spec_imm1_value(r) == pindex,
{
    combine_imm1_prefix_and_val(pindex, IMM1_PID_PREFIX)
}

/// Create a raw smallint value for a term from an unsigned number
#[inline]
pub fn make_small_raw(val: Word) -> (r: Word)
    ensures
        r == imm1::spec_combine_imm1(val, IMM1_SMALL_PREFIX),
        imm1::spec_imm1_prefix(r) == IMM1_SMALL_PREFIX,
        val < imm1::IMM1_VALUE_RANGE ==> imm1::spec_imm1_value(r) == val,
{
    combine_imm1_prefix_and_val(val, IMM1_SMALL_PREFIX)
}

#[inline]
pub fn make_xreg_raw(x: Word) -> (r: Word)
    requires
        x < MAX_XREGS,
    ensures
        r == imm3::spec_create_imm3(x, IMM3_XREG_PREFIX),
        imm3::spec_imm3_tag(r) == Immediate3::XReg,
        imm3::spec_imm3_value(r) == x,
{
    create_imm3(x, IMM3_XREG_PREFIX)
}

#[inline]
pub fn make_yreg_raw(x: Word) -> (r: Word)
    ensures
        r == imm3::spec_create_imm3(x, IMM3_YREG_PREFIX),
        imm3::spec_imm3_tag(r) == Immediate3::YReg,
        x < imm3::IMM3_VALUE_RANGE ==> imm3::spec_imm3_value(r) == x,
{
    create_imm3(x, IMM3_YREG_PREFIX)
}

#[inline]
pub fn make_fpreg_raw(x: Word) -> (r: Word)
    requires
        x < MAX_FPREGS,
    ensures
        r == imm3::spec_create_imm3(x, IMM3_FPREG_PREFIX),
        imm3::spec_imm3_tag(r) == Immediate3::FPReg,
        imm3::spec_imm3_value(r) == x,
{
    create_imm3(x, IMM3_FPREG_PREFIX)
}

#[inline]
pub fn make_label_raw(x: Word) -> (r: Word)
    ensures
        r == imm3::spec_create_imm3(x, IMM3_LABEL_PREFIX),
        imm3::spec_imm3_tag(r) == Immediate3::Label,
        x < imm3::IMM3_VALUE_RANGE ==> imm3::spec_imm3_value(r) == x,
{
    create_imm3(x, IMM3_LABEL_PREFIX)
}

//
// Checks
//
#[inline]
pub fn is_pid_raw(val: Word) -> (b: bool)
    ensures
        b == (imm1::spec_imm1_prefix(val) == IMM1_PID_PREFIX),
        b == (val % 16 == 3),
{
    get_imm1_prefix(val) == IMM1_PID_PREFIX
}

#[inline]
pub fn is_atom_raw(val: Word) -> (b: bool)
    ensures
        b == (imm2::spec_imm2_prefix(val) == IMM2_ATOM_PREFIX),
        b == (val % 64 == 11),
{
    get_imm2_prefix(val) == IMM2_ATOM_PREFIX
}

} // verus!
