use erlangrt::emulator::heap::Heap;
use erlangrt::fail::Error;
use erlangrt::term::lterm::LTerm;

#[test]
fn new_heap_is_empty() {
    let hp = Heap::new(16);
    assert_eq!(hp.get_heap_max_capacity(), 16);
    assert_eq!(hp.get_heap_available(), 16);
    assert_eq!(hp.get_heap_top(), 0);
    assert_eq!(hp.get_stack_top(), 16);
    assert_eq!(hp.stack_depth(), 0);
    assert!(hp.heap_has_available(16));
    assert!(!hp.heap_has_available(17));
    assert!(hp.stack_have(16));
    assert!(!hp.stack_have(17));
}

#[test]
fn allocate_grows_the_heap_upwards() {
    let mut hp = Heap::new(16);
    assert_eq!(hp.allocate(3, false), Ok(8));
    assert_eq!(hp.allocate(2, true), Ok(32));
    assert_eq!(hp.get_heap_top(), 5);
    assert_eq!(hp.get_heap_available(), 11);
    assert_eq!(hp.ptr_to_index(8), Some(0));
    assert_eq!(hp.ptr_to_index(40), Some(4));
    assert_eq!(hp.ptr_to_index(48), None);
    assert_eq!(hp.ptr_to_index(0), None);
    assert_eq!(hp.ptr_to_index(9), None);
    assert_eq!(Heap::word_addr(4), 40);
}

#[test]
fn allocate_fails_without_change_when_full() {
    let mut hp = Heap::new(4);
    assert_eq!(hp.allocate(5, false), Err(Error::HeapIsFull));
    assert_eq!(hp.get_heap_top(), 0);
    assert_eq!(hp.allocate(4, false), Ok(8));
    assert_eq!(hp.allocate(1, true), Err(Error::HeapIsFull));
    assert_eq!(hp.allocate(0, true), Ok(40));
    assert_eq!(hp.get_heap_top(), 4);
    assert_eq!(hp.ensure_size(0), Ok(()));
    assert_eq!(hp.ensure_size(1), Err(Error::HeapIsFull));
}

#[test]
fn zeroed_allocation_clears_stale_words() {
    let mut hp = Heap::new(8);
    assert_eq!(hp.stack_push(LTerm::make_small_signed(7)), Ok(()));
    assert_eq!(hp.stack_push(LTerm::make_small_signed(8)), Ok(()));
    let cp = LTerm::make_cp(0);
    assert_eq!(hp.stack_push(cp), Ok(()));
    assert_eq!(hp.stack_deallocate(2), cp);
    // the words that the stack left behind are still there
    assert_eq!(hp.get_word(7), LTerm::make_small_signed(7).raw());
    assert_eq!(hp.stack_alloc(1, false), Ok(()));
    assert_eq!(hp.get_word(7), LTerm::make_small_signed(7).raw());
    assert_eq!(hp.stack_alloc(1, true), Ok(()));
    assert_eq!(hp.get_word(6), 0);
    assert_eq!(hp.get_word(7), LTerm::make_small_signed(7).raw());
}

#[test]
fn stack_grows_down_towards_the_heap() {
    let mut hp = Heap::new(8);
    assert_eq!(hp.allocate(3, true), Ok(8));
    assert_eq!(hp.stack_alloc(4, true), Ok(()));
    assert_eq!(hp.get_stack_top(), 4);
    assert_eq!(hp.stack_depth(), 4);
    assert_eq!(hp.stack_alloc(2, true), Err(Error::StackIsFull));
    assert_eq!(hp.stack_push(LTerm::nil()), Ok(()));
    assert_eq!(hp.get_stack_top(), 3);
    assert_eq!(hp.get_term(3), LTerm::nil());
    assert_eq!(hp.stack_push(LTerm::nil()), Err(Error::StackIsFull));
    assert_eq!(hp.get_stack_top(), 3);
    assert!(hp.get_stack_top() >= hp.get_heap_top());
    assert_eq!(hp.allocate(1, false), Err(Error::HeapIsFull));
}

#[test]
fn y_slots_lie_below_the_continuation_pointer() {
    let mut hp = Heap::new(8);
    hp.stack_alloc_unchecked(2, true);
    hp.stack_push_lterm_unchecked(LTerm::make_cp(64));
    assert!(hp.stack_have_y(0));
    assert!(hp.stack_have_y(1));
    assert!(!hp.stack_have_y(2));
    assert_eq!(hp.get_y(0), Ok(LTerm::non_value()));
    assert_eq!(hp.set_y(1, LTerm::make_atom(3)), Ok(()));
    assert_eq!(hp.get_y(1), Ok(LTerm::make_atom(3)));
    assert_eq!(hp.get_word(7), LTerm::make_atom(3).raw());
    assert_eq!(hp.set_y(2, LTerm::nil()), Err(Error::StackIndexRange(2)));
    assert_eq!(hp.get_y(2), Err(Error::StackIndexRange(2)));
    assert_eq!(hp.get_y(u64::MAX), Err(Error::StackIndexRange(u64::MAX)));
}

#[test]
fn deallocate_pops_the_continuation_pointer_and_the_frame() {
    let mut hp = Heap::new(8);
    hp.stack_alloc_unchecked(3, false);
    let cp = LTerm::make_cp(128);
    hp.stack_push_lterm_unchecked(cp);
    assert_eq!(hp.get_stack_top(), 4);
    assert_eq!(hp.stack_deallocate(3), cp);
    assert_eq!(hp.get_stack_top(), 8);
}

#[test]
fn placed_words_are_read_back() {
    let mut hp = Heap::new(8);
    assert_eq!(hp.place_words(&vec![11, 22, 33]), Ok(8));
    assert_eq!(hp.get_word(0), 11);
    assert_eq!(hp.get_word(2), 33);
    hp.set_word(1, 99);
    assert_eq!(hp.get_word(1), 99);
    assert_eq!(hp.place_words(&vec![0; 6]), Err(Error::HeapIsFull));
    assert_eq!(hp.get_heap_top(), 3);
}
