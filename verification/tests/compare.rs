use erlangrt::emulator::function::FunEntry;
use erlangrt::emulator::heap::ho_binary::HOBinary;
use erlangrt::emulator::heap::Heap;
use erlangrt::emulator::mfa::MFArity;
use erlangrt::term::boxed::{Closure, Tuple};
use erlangrt::term::builders::make_list;
use erlangrt::term::classify::{classify_term, TermClass};
use erlangrt::term::compare::{cmp_terms, term_order};
use erlangrt::term::lterm::LTerm;
use std::cmp::Ordering;

fn small(v: i64) -> LTerm {
    LTerm::make_small_signed(v)
}

#[test]
fn classes_follow_the_documented_order() {
    let mut hp = Heap::new(128);
    let mfa = MFArity::new(LTerm::make_atom(1), LTerm::make_atom(0), 0);
    let ascending = [
        small(5),
        LTerm::make_atom(0),
        Closure::create_into(&mut hp, &FunEntry::new(mfa, 0), &[]).unwrap(),
        LTerm::from_raw(8 + 6),
        LTerm::make_local_pid(0),
        Tuple::create_into(&mut hp, &[small(1)]).unwrap(),
        LTerm::nil(),
        make_list(&mut hp, &vec![small(1)]).unwrap(),
        HOBinary::make_term(HOBinary::place_into(&mut hp, 1).unwrap()),
        LTerm::make_cp(8),
    ];
    let classes = [
        TermClass::Number,
        TermClass::Atom,
        TermClass::Fun,
        TermClass::Port,
        TermClass::Pid,
        TermClass::Tuple,
        TermClass::Nil,
        TermClass::List,
        TermClass::Binary,
        TermClass::Special_,
    ];
    for i in 0..ascending.len() {
        assert_eq!(classify_term(&hp, ascending[i]), classes[i]);
        for j in 0..ascending.len() {
            assert_eq!(cmp_terms(&hp, ascending[i], ascending[j], true), i.cmp(&j));
            assert_eq!(cmp_terms(&hp, ascending[i], ascending[j], false), i.cmp(&j));
        }
    }
    assert_eq!(TermClass::Number.get_rank(), 0);
    assert_eq!(TermClass::Special_.get_rank(), 11);
}

#[test]
fn small_integers_compare_by_value_not_by_word() {
    let hp = Heap::new(8);
    assert_eq!(cmp_terms(&hp, small(-1), small(1), true), Ordering::Less);
    assert!(small(-1).raw() > small(1).raw());
    assert_eq!(cmp_terms(&hp, small(7), small(7), true), Ordering::Equal);
    assert_eq!(cmp_terms(&hp, small(8), small(7), false), Ordering::Greater);
    assert_eq!(cmp_terms(&hp, LTerm::make_atom(3), LTerm::make_atom(9), true), Ordering::Less);
    assert_eq!(
        cmp_terms(&hp, LTerm::make_local_pid(3), LTerm::make_local_pid(2), true),
        Ordering::Greater
    );
}

#[test]
fn tuples_compare_by_size_then_by_elements() {
    let mut hp = Heap::new(128);
    let a = Tuple::create_into(&mut hp, &[small(1), small(2)]).unwrap();
    let b = Tuple::create_into(&mut hp, &[small(1), small(2)]).unwrap();
    let c = Tuple::create_into(&mut hp, &[small(1), small(3)]).unwrap();
    let d = Tuple::create_into(&mut hp, &[small(9)]).unwrap();
    let e = Tuple::create_into(&mut hp, &[]).unwrap();
    assert_ne!(a, b);
    assert_eq!(cmp_terms(&hp, a, b, true), Ordering::Equal);
    assert_eq!(cmp_terms(&hp, a, c, true), Ordering::Less);
    assert_eq!(cmp_terms(&hp, c, a, true), Ordering::Greater);
    assert_eq!(cmp_terms(&hp, d, a, true), Ordering::Less);
    assert_eq!(cmp_terms(&hp, e, LTerm::empty_tuple(), true), Ordering::Equal);
    assert_eq!(cmp_terms(&hp, LTerm::empty_tuple(), d, true), Ordering::Less);
    let nested_a = Tuple::create_into(&mut hp, &[a, c]).unwrap();
    let nested_b = Tuple::create_into(&mut hp, &[b, a]).unwrap();
    assert_eq!(cmp_terms(&hp, nested_a, nested_b, true), Ordering::Greater);
}

#[test]
fn lists_compare_element_by_element() {
    let mut hp = Heap::new(128);
    let a = make_list(&mut hp, &vec![small(1), small(2), small(3)]).unwrap();
    let b = make_list(&mut hp, &vec![small(1), small(2), small(3)]).unwrap();
    let c = make_list(&mut hp, &vec![small(1), small(2)]).unwrap();
    let d = make_list(&mut hp, &vec![small(1), small(4)]).unwrap();
    assert_eq!(cmp_terms(&hp, a, b, true), Ordering::Equal);
    // the shorter list ends with the empty list where the longer goes on
    assert_eq!(cmp_terms(&hp, c, a, true), Ordering::Less);
    assert_eq!(cmp_terms(&hp, a, c, true), Ordering::Greater);
    assert_eq!(cmp_terms(&hp, d, a, true), Ordering::Greater);
    let top = hp.get_heap_top();
    assert_eq!(term_order(&hp, a, top, d, top, true), -1);
    assert_eq!(term_order(&hp, a, top, a, top, true), 0);
}

fn binary(hp: &mut Heap, bytes: &[u8]) -> LTerm {
    let t = HOBinary::make_term(HOBinary::place_into(hp, bytes.len() as u64).unwrap());
    HOBinary::store(hp, t, &bytes.to_vec());
    t
}

#[test]
fn binaries_compare_byte_by_byte_then_by_length() {
    let mut hp = Heap::new(256);
    // stale words of two kinds where the binaries will be placed
    assert!(hp.place_words(&vec![u64::MAX; 6]).is_ok());
    let a = binary(&mut hp, &[1, 2, 3]);
    let b = {
        let mut other = Heap::new(16);
        binary(&mut other, &[1, 2, 3]);
        binary(&mut hp, &[1, 2, 3])
    };
    let c = binary(&mut hp, &[1, 2, 4]);
    let d = binary(&mut hp, &[1, 2, 3, 0]);
    let e = binary(&mut hp, &[2]);
    let long_a = binary(&mut hp, &[9, 9, 9, 9, 9, 9, 9, 9, 1, 7]);
    let long_b = binary(&mut hp, &[9, 9, 9, 9, 9, 9, 9, 9, 2, 0]);
    let none = binary(&mut hp, &[]);
    assert_eq!(cmp_terms(&hp, a, b, true), Ordering::Equal);
    assert_eq!(cmp_terms(&hp, a, c, true), Ordering::Less);
    assert_eq!(cmp_terms(&hp, c, a, true), Ordering::Greater);
    assert_eq!(cmp_terms(&hp, a, d, true), Ordering::Less);
    assert_eq!(cmp_terms(&hp, d, c, true), Ordering::Less);
    assert_eq!(cmp_terms(&hp, c, e, true), Ordering::Less);
    assert_eq!(cmp_terms(&hp, long_a, long_b, true), Ordering::Less);
    assert_eq!(cmp_terms(&hp, none, LTerm::empty_binary(), true), Ordering::Equal);
    assert_eq!(cmp_terms(&hp, LTerm::empty_binary(), a, true), Ordering::Less);
    assert_eq!(cmp_terms(&hp, LTerm::empty_binary(), LTerm::empty_binary(), true), Ordering::Equal);
}

#[test]
fn objects_compare_by_what_they_hold() {
    let mut hp = Heap::new(256);
    let mfa = MFArity::new(LTerm::make_atom(1), LTerm::make_atom(0), 1);
    let other = MFArity::new(LTerm::make_atom(1), LTerm::make_atom(0), 2);
    let t1 = Tuple::create_into(&mut hp, &[small(1)]).unwrap();
    let t2 = Tuple::create_into(&mut hp, &[small(1)]).unwrap();
    let t3 = Tuple::create_into(&mut hp, &[small(2)]).unwrap();
    let f1 = Closure::create_into(&mut hp, &FunEntry::new(mfa, 1), &[t1]).unwrap();
    let f2 = Closure::create_into(&mut hp, &FunEntry::new(mfa, 1), &[t2]).unwrap();
    let f3 = Closure::create_into(&mut hp, &FunEntry::new(mfa, 1), &[t3]).unwrap();
    let f4 = Closure::create_into(&mut hp, &FunEntry::new(other, 1), &[t1]).unwrap();
    let f5 = Closure::create_into(&mut hp, &FunEntry::new(mfa, 0), &[]).unwrap();
    assert_ne!(f1, f2);
    assert_eq!(cmp_terms(&hp, f1, f2, true), Ordering::Equal);
    assert_eq!(cmp_terms(&hp, f1, f3, true), Ordering::Less);
    assert_eq!(cmp_terms(&hp, f3, f2, true), Ordering::Greater);
    assert_eq!(cmp_terms(&hp, f1, f4, true), Ordering::Less);
    assert_eq!(cmp_terms(&hp, f5, f1, true), Ordering::Less);
    let p1 = LTerm::make_remote_pid(&mut hp, LTerm::make_atom(3), 5).unwrap();
    let p2 = LTerm::make_remote_pid(&mut hp, LTerm::make_atom(3), 5).unwrap();
    let p3 = LTerm::make_remote_pid(&mut hp, LTerm::make_atom(3), 6).unwrap();
    assert_eq!(cmp_terms(&hp, p1, p2, true), Ordering::Equal);
    assert_eq!(cmp_terms(&hp, p1, p3, true), Ordering::Less);
    assert_eq!(cmp_terms(&hp, LTerm::make_local_pid(1000), p1, true), Ordering::Less);
    assert_eq!(cmp_terms(&hp, p1, LTerm::make_local_pid(0), true), Ordering::Greater);
    // a big integer stands in the heap, and after every small one
    let big = LTerm::make_boxed(hp.place_words(&vec![128 + 8 + 1, 5]).unwrap());
    assert_eq!(classify_term(&hp, big), TermClass::Number);
    assert_eq!(cmp_terms(&hp, small(i64::MAX >> 3), big, true), Ordering::Less);
    assert_eq!(cmp_terms(&hp, big, small(0), true), Ordering::Greater);
    assert_eq!(cmp_terms(&hp, big, big, true), Ordering::Equal);
    assert_eq!(cmp_terms(&hp, big, LTerm::make_atom(0), true), Ordering::Less);
}

#[test]
fn what_is_no_value_compares_by_its_word() {
    let hp = Heap::new(8);
    let x0 = LTerm::make_xreg(0);
    let x1 = LTerm::make_xreg(1);
    assert_eq!(cmp_terms(&hp, x0, x1, true), Ordering::Less);
    assert_eq!(cmp_terms(&hp, x1, x1, true), Ordering::Equal);
    assert_eq!(cmp_terms(&hp, LTerm::non_value(), LTerm::make_cp(0), true), Ordering::Less);
    let dangling = LTerm::make_boxed(0x4000);
    assert_eq!(classify_term(&hp, dangling), TermClass::Special_);
    assert_eq!(cmp_terms(&hp, dangling, LTerm::make_boxed(0x4008), true), Ordering::Less);
}
