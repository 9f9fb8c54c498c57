use erlangrt::defs::{HIGHEST_BIT_CP, MAX_FPREGS, MAX_XREGS};
use erlangrt::fail::Error;
use erlangrt::term::lterm::{
    LTerm, SpecialTag, TermTag, LARGEST_SMALL, SMALLEST_SMALL, SPECIALTAG_CONST,
    SPECIALTAG_REGY, TERMTAG_ATOM, TERMTAG_SMALL,
};

#[test]
fn small_round_trips_at_the_limits() {
    for v in [0i64, 1, -1, 42, -42, 1 << 59, -(1 << 59), SMALLEST_SMALL, LARGEST_SMALL] {
        assert!(LTerm::small_fits(v));
        let t = LTerm::make_small_signed(v);
        assert!(t.is_small());
        assert_eq!(t.get_small_signed(), v);
    }
}

#[test]
fn small_limits_are_sixty_bits_and_a_sign() {
    assert_eq!(LARGEST_SMALL, (1i64 << 60) - 1);
    assert_eq!(SMALLEST_SMALL, -((1i64 << 60) - 1));
    assert!(LTerm::small_fits(LARGEST_SMALL));
    assert!(LTerm::small_fits(SMALLEST_SMALL));
    assert!(!LTerm::small_fits(LARGEST_SMALL + 1));
    assert!(!LTerm::small_fits(SMALLEST_SMALL - 1));
}

#[test]
fn small_words_are_value_times_eight_plus_tag() {
    assert_eq!(LTerm::make_small_signed(5).raw(), 5 * 8 + 3);
    assert_eq!(LTerm::make_small_signed(-1).raw(), u64::MAX - 4);
    assert_eq!(LTerm::make_small_unsigned(5).raw(), 43);
    assert_eq!(LTerm::make_small_unsigned(5).get_small_unsigned(), 5);
}

#[test]
fn boxed_round_trips_and_is_nothing_else() {
    for p in [8u64, 16, 4096, 0x7fff_ffff_ffff_fff8] {
        let t = LTerm::make_boxed(p);
        assert_eq!(t.get_box_ptr(), p);
        assert_eq!(t.get_box_ptr_mut(), p);
        assert_eq!(t.get_box_ptr_safe(), Ok(p));
        assert_eq!(t.get_box_ptr_safe_mut(), Ok(p));
        assert!(t.is_boxed());
        assert!(t.is_value());
        assert!(!t.is_immediate());
        assert!(!t.is_cons());
        assert!(!t.is_list());
        assert!(!t.is_small());
        assert!(!t.is_atom());
        assert!(!t.is_local_pid());
        assert!(!t.is_internal_immediate());
        assert!(!t.is_cp());
        assert_eq!(t.get_term_tag(), TermTag::Boxed);
    }
}

#[test]
fn safe_projection_refuses_what_is_not_boxed() {
    assert_eq!(LTerm::make_small_signed(1).get_box_ptr_safe(), Err(Error::TermIsNotABoxed));
    assert_eq!(LTerm::make_atom(1).get_box_ptr_safe_mut(), Err(Error::TermIsNotABoxed));
    assert_eq!(LTerm::nil().get_box_ptr_safe(), Err(Error::TermIsNotABoxed));
}

#[test]
fn cons_round_trips() {
    let t = LTerm::make_cons(64);
    assert_eq!(t.raw(), 66);
    assert!(t.is_cons());
    assert!(t.is_list());
    assert!(!t.is_boxed());
    assert_eq!(t.get_cons_ptr(), 64);
    assert_eq!(t.get_cons_ptr_mut(), 64);
}

#[test]
fn special_constants_are_distinct() {
    let nil = LTerm::nil();
    let tuple = LTerm::empty_tuple();
    let binary = LTerm::empty_binary();
    assert_ne!(nil, tuple);
    assert_ne!(nil, binary);
    assert_ne!(tuple, binary);
    assert_eq!(nil.raw(), 135);
    assert_eq!(tuple.raw(), 71);
    assert_eq!(binary.raw(), 199);
    for (t, v) in [(nil, 2u64), (tuple, 1), (binary, 3)] {
        assert!(t.is_internal_immediate());
        assert!(t.is_value());
        assert!(!t.is_boxed());
        assert_eq!(t.get_special_tag(), SPECIALTAG_CONST);
        assert_eq!(t.get_special_value(), v);
        assert_eq!(LTerm::make_special(SPECIALTAG_CONST, v), t);
    }
    assert!(nil.is_list());
    assert!(!tuple.is_list());
    assert!(!binary.is_list());
}

#[test]
fn non_value_is_the_zero_word() {
    let n = LTerm::non_value();
    assert_eq!(n.raw(), 0);
    assert!(n.is_non_value());
    assert!(!n.is_value());
    assert!(!n.is_atom());
    assert!(!n.is_cons());
    assert!(!LTerm::nil().is_non_value());
    assert!(!LTerm::make_atom(0).is_non_value());
    assert!(!LTerm::make_cons(0).is_non_value());
}

#[test]
fn atoms_and_pids_carry_their_index() {
    let a = LTerm::make_atom(77);
    assert_eq!(a.raw(), 77 * 8 + 4);
    assert!(a.is_atom());
    assert_eq!(a.atom_index(), 77);
    assert_eq!(a.get_term_tag(), TERMTAG_ATOM);
    let p = LTerm::make_local_pid(9);
    assert_eq!(p.raw(), 9 * 8 + 5);
    assert!(p.is_local_pid());
    assert_eq!(p.get_term_val_without_tag(), 9);
    assert!(a.is_immediate());
}

#[test]
fn tag_and_value_constructors() {
    let t = LTerm::make_from_tag_and_value(TERMTAG_SMALL, 10);
    assert_eq!(t.raw(), 83);
    assert_eq!(t.get_term_tag(), TermTag::Small);
    let s = LTerm::make_from_tag_and_signed_value(TERMTAG_SMALL, -10);
    assert_eq!(s.get_small_signed(), -10);
    assert_eq!(TermTag::Special.get(), 7);
    assert_eq!(SpecialTag::Opcode.get(), 4);
    assert_eq!(TermTag::from_word(13), TermTag::LocalPid);
    assert_eq!(SpecialTag::from_word(10), SpecialTag::RegY);
}

#[test]
fn registers_are_special_terms() {
    let x = LTerm::make_xreg(MAX_XREGS - 1);
    assert_eq!(x.get_special_tag(), SpecialTag::RegX);
    assert_eq!(x.get_special_value(), 255);
    assert_eq!(x.raw(), 255 * 64 + 8 + 7);
    let y = LTerm::make_yreg(1000);
    assert_eq!(y.get_special_tag(), SPECIALTAG_REGY);
    assert_eq!(y.get_special_value(), 1000);
    let fp = LTerm::make_fpreg(MAX_FPREGS - 1);
    assert_eq!(fp.get_special_tag(), SpecialTag::RegFp);
    assert_eq!(fp.get_special_value(), 7);
}

#[test]
fn continuation_pointer_sets_the_highest_bit() {
    let cp = LTerm::make_cp(0x1000);
    assert_eq!(cp.raw(), 0x1000 | HIGHEST_BIT_CP);
    assert!(cp.is_boxed());
    assert!(cp.is_cp());
    assert_eq!(cp.get_cp_ptr(), 0x1000);
    let null = LTerm::make_cp(0);
    assert!(null.is_cp());
    assert_eq!(null.get_cp_ptr(), 0);
    assert!(!LTerm::make_small_signed(-1).is_cp());
}

#[test]
fn raw_identity() {
    assert!(LTerm::is_same(LTerm::nil(), LTerm::from_raw(135)));
    assert!(!LTerm::is_same(LTerm::make_atom(1), LTerm::make_atom(2)));
    assert!(LTerm::make_atom(1) < LTerm::make_atom(2));
}
