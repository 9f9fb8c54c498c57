use erlangrt::bif::bif_compare::{shared_eq, ubif_seq_2_2, ubif_seqeq_2_2};
use erlangrt::bif::bif_sys::{
    bif_erlang_atom_to_list_1, bif_erlang_error_1, bif_erlang_error_2, bif_erlang_nif_error_1,
    bif_erlang_nif_error_2,
};
use erlangrt::defs::exc_type::ExceptionType;
use erlangrt::emulator::code_srv::{CodePtr, CodeServer};
use erlangrt::emulator::gen_atoms::{
    atom_badarg, atom_badfun, atom_false, atom_true, new_atom_table,
};
use erlangrt::emulator::heap::{Heap, DEFAULT_PROC_HEAP};
use erlangrt::emulator::mfa::MFArity;
use erlangrt::emulator::process::Process;
use erlangrt::emulator::scheduler::Prio;
use erlangrt::fail::{badarg, Error};
use erlangrt::term::boxed::Tuple;
use erlangrt::term::builders::make_badfun_n;
use erlangrt::term::lterm::LTerm;

fn spawn() -> Process {
    let mfa = MFArity::new(LTerm::make_atom(10), LTerm::make_atom(11), 0);
    let mut code = CodeServer::new();
    code.register(mfa, CodePtr { ptr: 0x4000 });
    Process::new(LTerm::make_local_pid(1), LTerm::nil(), &mfa, Prio::Normal, &code).unwrap()
}

fn small(v: i64) -> LTerm {
    LTerm::make_small_signed(v)
}

#[test]
fn equality_bifs_answer_with_an_atom() {
    let mut p = spawn();
    let a = Tuple::create_into(&mut p.heap, &[small(1), LTerm::nil()]).unwrap();
    let b = Tuple::create_into(&mut p.heap, &[small(1), LTerm::nil()]).unwrap();
    let c = Tuple::create_into(&mut p.heap, &[small(2), LTerm::nil()]).unwrap();
    assert_eq!(ubif_seqeq_2_2(&mut p, &[a, b]), Ok(atom_true()));
    assert_eq!(ubif_seq_2_2(&mut p, &[a, b]), Ok(atom_true()));
    assert_eq!(ubif_seqeq_2_2(&mut p, &[a, c]), Ok(atom_false()));
    assert_eq!(ubif_seq_2_2(&mut p, &[c, a]), Ok(atom_false()));
    assert_eq!(ubif_seq_2_2(&mut p, &[small(1), LTerm::make_atom(1)]), Ok(atom_false()));
    assert_eq!(shared_eq(&p.heap, &[LTerm::nil(), LTerm::nil()], true), Ok(atom_true()));
    assert_eq!(atom_true(), LTerm::make_atom(1));
    assert_eq!(atom_false(), LTerm::make_atom(0));
}

#[test]
fn nif_error_raises_badfun_with_its_arguments() {
    let atoms = new_atom_table();
    let mut p = spawn();
    let r = bif_erlang_nif_error_1(&mut p, &[small(5)]);
    let reason = LTerm::make_boxed(8);
    assert_eq!(r, Err(Error::Exception(ExceptionType::Error, reason)));
    assert_eq!(reason.fmt(&p.heap, &atoms), "{'badfun', 5}");
    assert_eq!(p.heap.get_heap_top(), 3);
    let r = bif_erlang_nif_error_2(&mut p, &[small(5), atom_true()]);
    let reason = LTerm::make_boxed(Heap::word_addr(3));
    assert_eq!(r, Err(Error::Exception(ExceptionType::Error, reason)));
    assert_eq!(reason.fmt(&p.heap, &atoms), "{'badfun', 5, 'true'}");
    assert_eq!(p.heap.get_heap_top(), 7);
    assert_eq!(atom_badfun(), LTerm::make_atom(3));
}

#[test]
fn nif_error_with_a_full_heap_is_a_capacity_error() {
    let mut p = spawn();
    assert!(p.heap.allocate(DEFAULT_PROC_HEAP - 2, false).is_ok());
    assert_eq!(bif_erlang_nif_error_1(&mut p, &[small(5)]), Err(Error::HeapIsFull));
    assert_eq!(bif_erlang_nif_error_2(&mut p, &[small(5), small(6)]), Err(Error::HeapIsFull));
    assert_eq!(bif_erlang_error_2(&mut p, &[small(5), small(6)]), Err(Error::HeapIsFull));
    assert_eq!(make_badfun_n(&[], &mut p.heap), Ok(LTerm::make_boxed(Heap::word_addr(DEFAULT_PROC_HEAP - 2))));
    assert_eq!(p.heap.get_heap_available(), 0);
}

#[test]
fn error_bifs_raise_their_argument() {
    let atoms = new_atom_table();
    let mut p = spawn();
    assert_eq!(
        bif_erlang_error_1(&mut p, &[atom_badarg()]),
        Err(Error::Exception(ExceptionType::Error, atom_badarg()))
    );
    assert_eq!(p.heap.get_heap_top(), 0);
    let r = bif_erlang_error_2(&mut p, &[atom_badarg(), LTerm::nil()]);
    let reason = LTerm::make_boxed(8);
    assert_eq!(r, Err(Error::Exception(ExceptionType::Error, reason)));
    assert_eq!(reason.fmt(&p.heap, &atoms), "{'badarg', []}");
    assert_eq!(badarg(), Err(Error::Exception(ExceptionType::Error, LTerm::make_atom(2))));
}

#[test]
fn atom_to_list_spells_the_name() {
    let mut atoms = new_atom_table();
    let hello = atoms.from_str("hello");
    let empty = atoms.from_str("");
    let wide = atoms.from_str("\u{e9}t\u{e9}");
    let mut p = spawn();
    let l = bif_erlang_atom_to_list_1(&mut p, &atoms, &[hello]).unwrap();
    assert_eq!(l.fmt(&p.heap, &atoms), "\"hello\"");
    assert_eq!(p.heap.get_heap_top(), 10);
    // the cells stand last character first, each tail below its cell
    assert_eq!(p.heap.get_term(0), small('o' as i64));
    assert_eq!(p.heap.get_term(1), LTerm::nil());
    assert_eq!(p.heap.get_term(8), small('h' as i64));
    assert_eq!(l, LTerm::make_cons(Heap::word_addr(8)));
    assert_eq!(bif_erlang_atom_to_list_1(&mut p, &atoms, &[empty]), Ok(LTerm::nil()));
    let w = bif_erlang_atom_to_list_1(&mut p, &atoms, &[wide]).unwrap();
    assert_eq!(w.fmt(&p.heap, &atoms), "[233, 116, 233]");
    assert_eq!(
        bif_erlang_atom_to_list_1(&mut p, &atoms, &[LTerm::make_atom(99)]),
        Err(Error::Exception(ExceptionType::Error, atom_badarg()))
    );
    assert_eq!(
        bif_erlang_atom_to_list_1(&mut p, &atoms, &[small(1)]),
        Err(Error::Exception(ExceptionType::Error, atom_badarg()))
    );
}

#[test]
fn atom_to_list_with_a_full_heap_is_a_capacity_error() {
    let atoms = new_atom_table();
    let mut p = spawn();
    assert!(p.heap.allocate(DEFAULT_PROC_HEAP - 7, false).is_ok());
    assert_eq!(bif_erlang_atom_to_list_1(&mut p, &atoms, &[atom_true()]), Err(Error::HeapIsFull));
    assert_eq!(p.heap.get_heap_available(), 7);
}
