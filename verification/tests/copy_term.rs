use erlangrt::emulator::function::FunEntry;
use erlangrt::emulator::gen_atoms::new_atom_table;
use erlangrt::emulator::heap::copy_term::{copy_size, copy_to, copy_unchecked, is_closed};
use erlangrt::emulator::heap::ho_binary::HOBinary;
use erlangrt::emulator::heap::Heap;
use erlangrt::emulator::mfa::MFArity;
use erlangrt::fail::Error;
use erlangrt::term::boxed::{Closure, Tuple};
use erlangrt::term::builders::make_list;
use erlangrt::term::compare::cmp_terms;
use erlangrt::term::lterm::LTerm;
use std::cmp::Ordering;

fn small(v: i64) -> LTerm {
    LTerm::make_small_signed(v)
}

#[test]
fn a_copy_prints_as_the_term_it_was_made_from() {
    let atoms = new_atom_table();
    let mut src = Heap::new(128);
    let list = make_list(&mut src, &vec![small(1), small(2)]).unwrap();
    let inner = Tuple::create_into(&mut src, &[list, LTerm::make_atom(1)]).unwrap();
    let outer = make_list(&mut src, &vec![inner, LTerm::nil(), inner]).unwrap();
    assert_eq!(outer.fmt(&src, &atoms), "[{[1, 2], 'true'}, [], {[1, 2], 'true'}]");
    let top = src.get_heap_top();
    assert!(is_closed(&src, outer, top));
    // what is shared is copied once for each use
    assert_eq!(copy_size(&src, outer, top, 1000), Some(6 + 2 * (3 + 4)));
    assert_eq!(copy_size(&src, outer, top, 20), Some(20));
    assert_eq!(copy_size(&src, outer, top, 19), None);

    let mut dst = Heap::new(64);
    assert!(dst.allocate(3, true).is_ok());
    let copy = copy_to(outer, &src, &mut dst).unwrap();
    assert_eq!(dst.get_heap_top(), 23);
    assert_eq!(copy.fmt(&dst, &atoms), "[{[1, 2], 'true'}, [], {[1, 2], 'true'}]");
    let again = copy_unchecked(&dst, copy, dst.get_heap_top(), &mut src);
    assert_eq!(cmp_terms(&src, again, outer, true), Ordering::Equal);
    assert_ne!(again, outer);
}

#[test]
fn closures_take_their_frozen_values_along() {
    let atoms = new_atom_table();
    let mut src = Heap::new(128);
    let mfa = MFArity::new(LTerm::make_atom(1), LTerm::make_atom(0), 2);
    let captured = Tuple::create_into(&mut src, &[small(7)]).unwrap();
    let closure =
        Closure::create_into(&mut src, &FunEntry::new(mfa, 2), &[captured, small(8)]).unwrap();
    let mut dst = Heap::new(64);
    assert!(dst.allocate(10, true).is_ok());
    let copy = copy_to(closure, &src, &mut dst).unwrap();
    assert_eq!(dst.get_heap_top(), 10 + 2 + 9);
    let at = dst.ptr_to_index(copy.raw()).unwrap();
    assert_eq!(at, 12);
    for k in 0..7 {
        assert_eq!(dst.get_word(at + k), src.get_word(2 + k));
    }
    let frozen = dst.get_term(at + 7);
    assert_ne!(frozen, captured);
    assert_eq!(frozen.fmt(&dst, &atoms), "{7}");
    assert_eq!(dst.get_term(at + 8), small(8));
}

#[test]
fn binaries_are_copied_word_for_word() {
    let mut src = Heap::new(32);
    let bin = HOBinary::make_term(HOBinary::place_into(&mut src, 10).unwrap());
    HOBinary::store(&mut src, bin, &vec![1, 2, 3, 4, 5, 6, 7, 8, 9, 10]);
    let mut dst = Heap::new(32);
    assert!(dst.allocate(1, true).is_ok());
    let copy = copy_to(bin, &src, &mut dst).unwrap();
    assert_eq!(copy, LTerm::make_boxed(16));
    for k in 0..6 {
        assert_eq!(dst.get_word(1 + k), src.get_word(k));
    }
    assert_eq!(HOBinary::fmt_str(&dst, copy), "HeapBin(10 bytes)");
}

#[test]
fn what_points_nowhere_is_copied_as_it_is() {
    let src = Heap::new(8);
    let mut dst = Heap::new(8);
    for t in [small(-3), LTerm::nil(), LTerm::non_value(), LTerm::make_cp(64), LTerm::make_atom(2)] {
        assert_eq!(copy_to(t, &src, &mut dst), Ok(t));
    }
    assert_eq!(dst.get_heap_top(), 0);
}

#[test]
fn a_copy_that_cannot_be_made_changes_nothing() {
    let mut src = Heap::new(32);
    let t = Tuple::create_into(&mut src, &[small(1), small(2), small(3)]).unwrap();
    let mut dst = Heap::new(3);
    assert_eq!(copy_to(t, &src, &mut dst), Err(Error::HeapIsFull));
    assert_eq!(dst.get_heap_top(), 0);
    // a tuple that holds a pointer to nothing
    let bad = Tuple::create_into(&mut src, &[small(1), LTerm::make_boxed(0x4000)]).unwrap();
    assert!(!is_closed(&src, bad, src.get_heap_top()));
    let mut roomy = Heap::new(32);
    assert_eq!(copy_to(bad, &src, &mut roomy), Err(Error::TermIsNotABoxed));
    assert_eq!(roomy.get_heap_top(), 0);
    // a cell that points upwards, to itself
    let at = Heap::word_addr(src.get_heap_top());
    assert!(src.place_words(&vec![small(1).raw(), LTerm::make_cons(at).raw()]).is_ok());
    assert_eq!(copy_to(LTerm::make_cons(at), &src, &mut roomy), Err(Error::TermIsNotABoxed));
}

#[test]
fn long_lists_are_followed_cell_by_cell() {
    let atoms = new_atom_table();
    let n = 300_000usize;
    let mut src = Heap::new(2 * n + 8);
    let elements: Vec<LTerm> = (0..n).map(|i| small((i % 7) as i64)).collect();
    let list = make_list(&mut src, &elements).unwrap();
    assert!(is_closed(&src, list, src.get_heap_top()));
    assert_eq!(copy_size(&src, list, src.get_heap_top(), usize::MAX), Some(2 * n));
    let mut dst = Heap::new(2 * n + 8);
    let copy = copy_to(list, &src, &mut dst).unwrap();
    assert_eq!(dst.get_heap_top(), 2 * n);
    // the copy is laid out as the list was: last cell first
    for k in 0..(2 * n) {
        if k % 2 == 0 {
            assert_eq!(dst.get_word(k), src.get_word(k));
        }
    }
    assert_eq!(copy, list);
    assert_eq!(cmp_terms(&src, list, list, true), Ordering::Equal);
    let printed = copy.fmt(&dst, &atoms);
    assert_eq!(printed.len(), 3 * n);
    assert!(printed.starts_with("[0, 1, 2, 3, 4, 5, 6, 0, "));
    assert!(printed.ends_with(", 5, 6, 0]"));
}
