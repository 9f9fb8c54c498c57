//! The classes of terms, in the order in which terms of different classes
//! compare: a number is less than an atom, an atom less than a reference, and
//! so on down the list.
use vstd::prelude::*;
use crate::emulator::heap::{Heap, HeapView};
use crate::term::boxed::box_header::{spec_headerword_boxtype, BoxTypeTag};
use crate::term::lterm::{LTerm, TermTag};

verus! {

#[derive(Clone, Copy, Debug, PartialEq, Eq, Structural)]
pub enum TermClass {
    Number,
    Atom,
    Ref,
    Fun,
    Port,
    Pid,
    Tuple,
    ErlMap,
    Nil,
    List,
    Binary,
    /// What is no value of the language: headers, continuation pointers,
    /// register references, the non-value, pointers that point to no object.
    Special_,
}

pub const CLASS_NUMBER: TermClass = TermClass::Number;

pub const CLASS_ATOM: TermClass = TermClass::Atom;

pub const CLASS_REF: TermClass = TermClass::Ref;

pub const CLASS_FUN: TermClass = TermClass::Fun;

pub const CLASS_PORT: TermClass = TermClass::Port;

pub const CLASS_PID: TermClass = TermClass::Pid;

pub const CLASS_TUPLE: TermClass = TermClass::Tuple;

pub const CLASS_MAP: TermClass = TermClass::ErlMap;

pub const CLASS_NIL: TermClass = TermClass::Nil;

pub const CLASS_LIST: TermClass = TermClass::List;

pub const CLASS_BINARY: TermClass = TermClass::Binary;

pub const CLASS_SPECIAL: TermClass = TermClass::Special_;

impl TermClass {
    /// The place of the class in the order of the classes.
    pub open spec fn rank(self) -> nat {
        match self {
            TermClass::Number => 0,
            TermClass::Atom => 1,
            TermClass::Ref => 2,
            TermClass::Fun => 3,
            TermClass::Port => 4,
            TermClass::Pid => 5,
            TermClass::Tuple => 6,
            TermClass::ErlMap => 7,
            TermClass::Nil => 8,
            TermClass::List => 9,
            TermClass::Binary => 10,
            TermClass::Special_ => 11,
        }
    }

    pub fn get_rank(self) -> (r: u8)
        ensures
            r == self.rank(),
    {
        match self {
            TermClass::Number => 0,
            TermClass::Atom => 1,
            TermClass::Ref => 2,
            TermClass::Fun => 3,
            TermClass::Port => 4,
            TermClass::Pid => 5,
            TermClass::Tuple => 6,
            TermClass::ErlMap => 7,
            TermClass::Nil => 8,
            TermClass::List => 9,
            TermClass::Binary => 10,
            TermClass::Special_ => 11,
        }
    }
}

/// The class of the objects of one box type.
pub open spec fn spec_class_of_box(t: Option<BoxTypeTag>) -> TermClass {
    match t {
        Some(BoxTypeTag::Tuple) => TermClass::Tuple,
        Some(BoxTypeTag::BigInteger) => TermClass::Number,
        Some(BoxTypeTag::Float) => TermClass::Number,
        Some(BoxTypeTag::ExternalPid) => TermClass::Pid,
        Some(BoxTypeTag::ExternalPort) => TermClass::Port,
        Some(BoxTypeTag::ExternalRef) => TermClass::Ref,
        Some(BoxTypeTag::Closure) => TermClass::Fun,
        Some(BoxTypeTag::Export) => TermClass::Fun,
        Some(BoxTypeTag::Import) => TermClass::Fun,
        Some(BoxTypeTag::ErlMap) => TermClass::ErlMap,
        Some(BoxTypeTag::Binary) => TermClass::Binary,
        None => TermClass::Special_,
    }
}

/// The class of the term `t`, where pointers are followed into the first
/// `bound` words of the heap.
pub open spec fn spec_classify_term(hv: HeapView, t: LTerm, bound: nat) -> TermClass {
    match t.spec_term_tag() {
        TermTag::Boxed => if hv.is_box_below(t, bound) {
            spec_class_of_box(spec_headerword_boxtype(hv.box_header(t)))
        } else {
            TermClass::Special_
        },
        TermTag::Header => TermClass::Special_,
        TermTag::Cons => if hv.is_cons_below(t, bound) {
            TermClass::List
        } else {
            TermClass::Special_
        },
        TermTag::Small => TermClass::Number,
        TermTag::Atom => TermClass::Atom,
        TermTag::LocalPid => TermClass::Pid,
        TermTag::LocalPort => TermClass::Port,
        TermTag::Special => if t == LTerm::spec_nil() {
            TermClass::Nil
        } else if t == LTerm::spec_empty_tuple() {
            TermClass::Tuple
        } else if t == LTerm::spec_empty_binary() {
            TermClass::Binary
        } else {
            TermClass::Special_
        },
    }
}

fn class_of_box(t: Option<BoxTypeTag>) -> (c: TermClass)
    ensures
        c == spec_class_of_box(t),
{
    match t {
        Some(BoxTypeTag::Tuple) => TermClass::Tuple,
        Some(BoxTypeTag::BigInteger) => TermClass::Number,
        Some(BoxTypeTag::Float) => TermClass::Number,
        Some(BoxTypeTag::ExternalPid) => TermClass::Pid,
        Some(BoxTypeTag::ExternalPort) => TermClass::Port,
        Some(BoxTypeTag::ExternalRef) => TermClass::Ref,
        Some(BoxTypeTag::Closure) => TermClass::Fun,
        Some(BoxTypeTag::Export) => TermClass::Fun,
        Some(BoxTypeTag::Import) => TermClass::Fun,
        Some(BoxTypeTag::ErlMap) => TermClass::ErlMap,
        Some(BoxTypeTag::Binary) => TermClass::Binary,
        None => TermClass::Special_,
    }
}

/// The class of the term `t`, where pointers are followed into the first
/// `bound` words of the heap.
pub fn classify_term_below(hp: &Heap, t: LTerm, bound: usize) -> (c: TermClass)
    requires
        hp.wf(),
        bound <= hp@.heap_top,
    ensures
        c == spec_classify_term(hp@, t, bound as nat),
{
    match t.get_term_tag() {
        TermTag::Boxed => match hp.find_box(t, bound) {
            Some(found) => class_of_box(found.1.get_tag()),
            None => TermClass::Special_,
        },
        TermTag::Header => TermClass::Special_,
        TermTag::Cons => match hp.find_cons(t, bound) {
            Some(_) => TermClass::List,
            None => TermClass::Special_,
        },
        TermTag::Small => TermClass::Number,
        TermTag::Atom => TermClass::Atom,
        TermTag::LocalPid => TermClass::Pid,
        TermTag::LocalPort => TermClass::Port,
        TermTag::Special => {
            if t == LTerm::nil() {
                TermClass::Nil
            } else if t == LTerm::empty_tuple() {
                TermClass::Tuple
            } else if t == LTerm::empty_binary() {
                TermClass::Binary
            } else {
                TermClass::Special_
            }
        },
    }
}

/// The class of the term `t` of the heap `hp`.
pub fn classify_term(hp: &Heap, t: LTerm) -> (c: TermClass)
    requires
        hp.wf(),
    ensures
        c == spec_classify_term(hp@, t, hp@.heap_top),
{
    classify_term_below(hp, t, hp.get_heap_top())
}

} // verus!
