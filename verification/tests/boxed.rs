use erlangrt::emulator::atom::AtomTable;
use erlangrt::emulator::function::{CallableLocation, FunEntry};
use erlangrt::emulator::gen_atoms::new_atom_table;
use erlangrt::emulator::heap::heapobj::{HeapObjClass, HeapObjHeader, HeapObjType};
use erlangrt::emulator::heap::ho_binary::{hoclass_binary, HOBinary};
use erlangrt::emulator::heap::Heap;
use erlangrt::emulator::mfa::MFArity;
use erlangrt::fail::Error;
use erlangrt::term::boxed::box_header::BOXTYPE_TAG_BITS;
use erlangrt::term::boxed::{
    headerword_to_arity, headerword_to_boxtype, helper_get_const_from_boxed_term,
    helper_get_mut_from_boxed_term, BoxHeader, BoxTypeTag, Closure, Export, ExternalPid, Tuple,
    BOXTYPETAG_BINARY, BOXTYPETAG_CLOSURE, BOXTYPETAG_EXPORT, BOXTYPETAG_TUPLE,
};
use erlangrt::term::classify::TermClass;
use erlangrt::term::lterm::{LTerm, TermTag, TERM_TAG_BITS};

fn mfa() -> MFArity {
    MFArity::new(LTerm::make_atom(20), LTerm::make_atom(21), 3)
}

#[test]
fn header_packs_type_and_arity() {
    let h = BoxHeader::new(BOXTYPETAG_CLOSURE, 9);
    assert_eq!(h.header_word, (9 << (BOXTYPE_TAG_BITS + TERM_TAG_BITS)) | (5 << 3) | 1);
    assert_eq!(h.header_word, 9 * 128 + 5 * 8 + 1);
    assert_eq!(h.get_arity(), 9);
    assert_eq!(h.get_tag(), Some(BoxTypeTag::Closure));
    assert_eq!(headerword_to_arity(h.header_word), 9);
    assert_eq!(headerword_to_boxtype(h.header_word), Some(BOXTYPETAG_CLOSURE));
    assert_eq!(LTerm::from_raw(h.header_word).get_term_tag(), TermTag::Header);
    assert_eq!(headerword_to_boxtype(15 * 8 + 1), None);
    assert_eq!(BoxTypeTag::from_code(10), Some(BoxTypeTag::Binary));
    assert_eq!(BoxTypeTag::Export.get(), 8);
    assert_eq!(BoxHeader::storage_size(), 1);
}

#[test]
fn header_arity_is_the_number_of_words_up_to_the_next_header() {
    let mut hp = Heap::new(128);
    let fe = FunEntry::new(mfa(), 2);
    let frozen = [LTerm::make_small_signed(1), LTerm::nil()];
    let objects = [
        Closure::create_into(&mut hp, &fe, &frozen).unwrap(),
        Export::create_into(&mut hp, &mfa()).unwrap(),
        Tuple::create_into(&mut hp, &[LTerm::nil(); 4]).unwrap(),
        Tuple::create_into(&mut hp, &[]).unwrap(),
        LTerm::make_boxed(HOBinary::place_into(&mut hp, 17).unwrap()),
        LTerm::make_remote_pid(&mut hp, LTerm::make_atom(3), 5).unwrap(),
    ];
    // walk the heap from header to header
    let mut idx = 0;
    let mut met = 0;
    while idx < hp.get_heap_top() {
        let w = hp.get_word(idx);
        assert_eq!(LTerm::from_raw(w).get_term_tag(), TermTag::Header);
        assert_eq!(objects[met].get_box_ptr(), Heap::word_addr(idx));
        idx += 1 + headerword_to_arity(w) as usize;
        met += 1;
    }
    assert_eq!(idx, hp.get_heap_top());
    assert_eq!(met, objects.len());
    assert_eq!(hp.get_heap_top(), 9 + 6 + 5 + 1 + 7 + 3);
}

#[test]
fn closure_is_laid_out_field_by_field() {
    let mut hp = Heap::new(32);
    let fe = FunEntry::new(mfa(), 3);
    let frozen = [LTerm::make_small_signed(1), LTerm::make_atom(2), LTerm::nil()];
    let t = Closure::create_into(&mut hp, &fe, &frozen).unwrap();
    assert_eq!(t, LTerm::make_boxed(8));
    assert_eq!(hp.get_heap_top(), 10);
    assert_eq!(hp.get_word(0), BoxHeader::new(BOXTYPETAG_CLOSURE, 9).header_word);
    assert_eq!(hp.get_term(1), LTerm::make_atom(20));
    assert_eq!(hp.get_term(2), LTerm::make_atom(21));
    assert_eq!(hp.get_word(3), 3);
    assert_eq!(hp.get_word(4), 0);
    assert_eq!(hp.get_word(5), 0);
    assert_eq!(hp.get_word(6), 3);
    assert_eq!(hp.get_term(7), frozen[0]);
    assert_eq!(hp.get_term(8), frozen[1]);
    assert_eq!(hp.get_term(9), frozen[2]);
    let c = Closure::new(mfa(), 3);
    assert_eq!(c.dst, CallableLocation::NeedUpdate);
    assert_eq!(c.nfree, 3);
    assert_eq!(c.header.get_arity(), 9);
    assert_eq!(Closure::storage_size(3), 10);
    assert_eq!(Closure::const_from_term(&hp, t), Ok(8));
    assert_eq!(Closure::mut_from_term(&hp, t), Ok(8));
}

#[test]
fn closure_that_does_not_fit_changes_nothing() {
    let mut hp = Heap::new(9);
    let fe = FunEntry::new(mfa(), 3);
    let frozen = [LTerm::nil(); 3];
    assert_eq!(Closure::create_into(&mut hp, &fe, &frozen), Err(Error::HeapIsFull));
    assert_eq!(hp.get_heap_top(), 0);
    let fe = FunEntry::new(mfa(), 2);
    assert_eq!(Closure::create_into(&mut hp, &fe, &frozen[..2]), Ok(LTerm::make_boxed(8)));
    assert_eq!(hp.get_heap_available(), 0);
}

#[test]
fn typed_accessors_tell_their_errors() {
    let mut hp = Heap::new(64);
    let export = Export::create_into(&mut hp, &mfa()).unwrap();
    let closure = Closure::create_into(&mut hp, &FunEntry::new(mfa(), 0), &[]).unwrap();
    let tuple = Tuple::create_into(&mut hp, &[LTerm::nil()]).unwrap();
    assert_eq!(Export::const_from_term(&hp, export), Ok(export.raw()));
    assert_eq!(Export::mut_from_term(&hp, export), Ok(export.raw()));
    assert_eq!(Export::const_from_term(&hp, closure), Err(Error::BoxedIsNotAnExport));
    assert_eq!(Export::const_from_term(&hp, LTerm::nil()), Err(Error::TermIsNotABoxed));
    assert_eq!(Closure::const_from_term(&hp, export), Err(Error::BoxedIsNotAClosure));
    assert_eq!(Closure::const_from_term(&hp, LTerm::make_atom(1)), Err(Error::TermIsNotABoxed));
    assert_eq!(Closure::const_from_term(&hp, LTerm::make_boxed(0x8000)), Err(Error::BoxedIsNotAClosure));
    assert_eq!(Tuple::from_term(&hp, closure), Err(Error::BoxedIsNotATuple));
    assert_eq!(Tuple::from_term(&hp, LTerm::make_small_signed(1)), Err(Error::TermIsNotABoxed));
    let found = Tuple::from_term(&hp, tuple).unwrap();
    assert_eq!(found.get_arity(), 1);
    assert_eq!(found.get_element_base0(&hp, 0), LTerm::nil());
    assert_eq!(
        helper_get_const_from_boxed_term(&hp, tuple, BOXTYPETAG_BINARY, Error::BoxedIsNotABinary),
        Err(Error::BoxedIsNotABinary)
    );
    assert_eq!(
        helper_get_const_from_boxed_term(&hp, tuple, BOXTYPETAG_TUPLE, Error::BoxedIsNotATuple),
        Ok(tuple.raw())
    );
    assert_eq!(
        helper_get_mut_from_boxed_term(&hp, export, BOXTYPETAG_EXPORT, Error::BoxedIsNotAnExport),
        Ok(export.raw())
    );
}

#[test]
fn classifiers_read_the_header() {
    let mut hp = Heap::new(64);
    let export = Export::create_into(&mut hp, &mfa()).unwrap();
    let tuple = Tuple::create_into(&mut hp, &[LTerm::nil()]).unwrap();
    let binary = HOBinary::make_term(HOBinary::place_into(&mut hp, 3).unwrap());
    let pid = LTerm::make_remote_pid(&mut hp, LTerm::make_atom(3), 5).unwrap();
    assert!(tuple.is_tuple(&hp));
    assert!(!export.is_tuple(&hp));
    assert!(binary.is_binary(&hp));
    assert!(!tuple.is_binary(&hp));
    assert!(pid.is_external_pid(&hp));
    assert!(!pid.is_big_int(&hp));
    assert!(!pid.is_float(&hp));
    assert!(export.is_boxed_of_type(&hp, BoxTypeTag::Export));
    assert!(!LTerm::nil().is_tuple(&hp));
    assert!(!LTerm::non_value().is_tuple(&hp));
    assert!(!LTerm::make_boxed(0x4000).is_tuple(&hp));
    // a pointer into the middle of an object is no object
    assert!(!LTerm::make_boxed(export.raw() + 8).is_boxed_of_type(&hp, BoxTypeTag::Export));
}

#[test]
fn export_is_laid_out_field_by_field() {
    let mut hp = Heap::new(6);
    let t = Export::create_into(&mut hp, &mfa()).unwrap();
    assert_eq!(hp.get_word(0), BoxHeader::new(BOXTYPETAG_EXPORT, 5).header_word);
    assert_eq!(hp.get_term(1), LTerm::make_atom(20));
    assert_eq!(hp.get_term(2), LTerm::make_atom(21));
    assert_eq!(hp.get_word(3), 3);
    assert_eq!(hp.get_word(4), 0);
    assert_eq!(hp.get_word(5), 0);
    assert_eq!(Export::storage_size().words(), 6);
    let e = Export::new(&mfa());
    assert_eq!(e.exp.mfa, mfa());
    assert_eq!(e.exp.dst, CallableLocation::NeedUpdate);
    assert_eq!(e.header.get_tag(), Some(BoxTypeTag::Export));
    assert_eq!(Export::create_into(&mut hp, &mfa()), Err(Error::HeapIsFull));
    assert_eq!(t, LTerm::make_boxed(8));
}

#[test]
fn external_pid_holds_node_and_index() {
    let mut hp = Heap::new(4);
    assert_eq!(ExternalPid::create_into(&mut hp, LTerm::make_atom(9), 77), Ok(8));
    assert_eq!(hp.get_word(0), 2 * 128 + 2 * 8 + 1);
    assert_eq!(hp.get_term(1), LTerm::make_atom(9));
    assert_eq!(hp.get_word(2), 77);
    assert_eq!(LTerm::make_remote_pid(&mut hp, LTerm::make_atom(9), 1), Err(Error::HeapIsFull));
    assert_eq!(hp.get_heap_top(), 3);
}

#[test]
fn binary_stores_its_bytes() {
    let mut hp = Heap::new(32);
    assert_eq!(HOBinary::storage_size(0), 4);
    assert_eq!(HOBinary::storage_size(1), 5);
    assert_eq!(HOBinary::storage_size(8), 5);
    assert_eq!(HOBinary::storage_size(9), 6);
    // stale words where the bytes will be
    assert!(hp.place_words(&vec![u64::MAX; 8]).is_ok());
    let mut hp2 = Heap::new(32);
    let this = HOBinary::place_into(&mut hp2, 11).unwrap();
    assert_eq!(this, 8);
    assert_eq!(hp2.get_heap_top(), 6);
    assert_eq!(hp2.get_word(0), BoxHeader::new(BOXTYPETAG_BINARY, 5).header_word);
    assert_eq!(hp2.get_word(1), 1);
    assert_eq!(hp2.get_word(2), 11);
    assert_eq!(hp2.get_word(3), 0);
    let t = HOBinary::make_term(this);
    assert_eq!(HOBinary::fmt_str(&hp2, t), "HeapBin(11 bytes)");
    HOBinary::store(&mut hp2, t, &vec![1, 2, 3, 4, 5, 6, 7, 8, 9, 10]);
    assert_eq!(hp2.get_word(4), 0x0807_0605_0403_0201);
    assert_eq!(hp2.get_word(5), 0x0a09);
    HOBinary::store(&mut hp2, t, &vec![0xff, 0xee]);
    assert_eq!(hp2.get_word(4), 0x0807_0605_0403_eeff);
    assert_eq!(hp2.get_word(5), 0x0a09);
    HOBinary::store(&mut hp2, t, &vec![]);
    assert_eq!(hp2.get_word(4), 0x0807_0605_0403_eeff);
    HOBinary::dtor(&mut hp2, t);
    assert_eq!(hp2.get_heap_top(), 6);
    assert_eq!(hp2.get_word(2), 11);
}

#[test]
fn binary_that_does_not_fit_changes_nothing() {
    let mut hp = Heap::new(5);
    assert_eq!(HOBinary::place_into(&mut hp, 9), Err(Error::HeapIsFull));
    assert_eq!(HOBinary::place_into(&mut hp, u64::MAX), Err(Error::HeapIsFull));
    assert_eq!(hp.get_heap_top(), 0);
    assert_eq!(HOBinary::place_into(&mut hp, 8), Ok(8));
    assert_eq!(hp.get_heap_available(), 0);
}

#[test]
fn heap_object_header_carries_its_class() {
    let h = HeapObjHeader::new(6, hoclass_binary());
    assert_eq!(h.header_word, BoxHeader::new(BOXTYPETAG_BINARY, 5).header_word);
    assert_eq!(h.class.obj_type, HeapObjType::Binary);
    assert_eq!(h.class.term_class, TermClass::Binary);
    let import = HeapObjClass { obj_type: HeapObjType::Import, term_class: TermClass::Fun };
    assert_eq!(import.box_type(), BoxTypeTag::Import);
    assert_eq!(import.code(), 0);
    assert_eq!(hoclass_binary().code(), 1);
    assert_eq!(HeapObjHeader::new(1, import).header_word, 7 * 8 + 1);
}

#[test]
fn atom_table_interns_names() {
    let mut atoms = AtomTable::new();
    assert_eq!(atoms.len(), 0);
    let a = atoms.from_str("hello");
    let b = atoms.from_str("world");
    assert_eq!(a, LTerm::make_atom(0));
    assert_eq!(b, LTerm::make_atom(1));
    assert_eq!(atoms.from_str("hello"), a);
    assert_eq!(atoms.len(), 2);
    assert_eq!(atoms.to_str(b), Ok("world".to_string()));
    assert_eq!(atoms.lookup(a), Some(&"hello".to_string()));
    assert_eq!(atoms.to_str(LTerm::make_atom(2)), Err(Error::AtomNotExist));
    assert_eq!(atoms.to_str(LTerm::make_small_signed(0)), Err(Error::AtomNotExist));
    assert_eq!(atoms.lookup(LTerm::nil()), None);
    let gen = new_atom_table();
    assert_eq!(gen.len(), 4);
    assert_eq!(gen.to_str(LTerm::make_atom(3)), Ok("badfun".to_string()));
}
