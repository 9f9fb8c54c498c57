use erlangrt::term::immediate::{
    get_imm1_tag, get_imm2_tag, get_imm3_prefix, get_imm3_tag, imm3_value, is_atom_raw,
    is_pid_raw, make_atom_raw, make_fpreg_raw, make_label_raw, make_pid_raw, make_small_raw,
    make_xreg_raw, make_yreg_raw, Immediate1, Immediate2, Immediate3, IMM3_PREFIX,
};
use erlangrt::term::primary;

#[test]
fn test_imm3_tags() {
    let n = IMM3_PREFIX;
    assert_eq!(primary::get(n), primary::Tag::Immediate);
    assert_eq!(get_imm1_tag(n), Immediate1::Immed2);
    assert_eq!(get_imm2_tag(n), Immediate2::Immed3);
}

#[test]
fn test_imm3_new() {
    let label = 0b1000000;
    let n = make_label_raw(label);
    assert_eq!(primary::get(n), primary::Tag::Immediate);
    assert_eq!(get_imm1_tag(n), Immediate1::Immed2);
    assert_eq!(get_imm2_tag(n), Immediate2::Immed3);
    assert_eq!(get_imm3_tag(n), Immediate3::Label);
    assert_eq!(get_imm3_prefix(n), IMM3_PREFIX);
    assert_eq!(imm3_value(n), label);
}

#[test]
fn raw_registers_carry_their_index() {
    let x = make_xreg_raw(255);
    assert_eq!(get_imm3_tag(x), Immediate3::XReg);
    assert_eq!(imm3_value(x), 255);
    assert_eq!(x, 255 * 256 + 43);
    let y = make_yreg_raw(7);
    assert_eq!(get_imm3_tag(y), Immediate3::YReg);
    assert_eq!(imm3_value(y), 7);
    let fp = make_fpreg_raw(3);
    assert_eq!(get_imm3_tag(fp), Immediate3::FPReg);
    assert_eq!(imm3_value(fp), 3);
}

#[test]
fn raw_pid_atom_and_small() {
    let p = make_pid_raw(5);
    assert_eq!(p, 5 * 16 + 3);
    assert!(is_pid_raw(p));
    assert!(!is_atom_raw(p));
    let a = make_atom_raw(9);
    assert_eq!(a, 9 * 64 + 11);
    assert!(is_atom_raw(a));
    assert!(!is_pid_raw(a));
    let s = make_small_raw(2);
    assert_eq!(s, 2 * 16 + 15);
    assert_eq!(get_imm1_tag(s), Immediate1::Small);
    assert!(!is_pid_raw(s));
}
