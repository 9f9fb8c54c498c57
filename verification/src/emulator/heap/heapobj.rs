//! A heap object is a block of heap memory that begins with:
//!
//! 1. a header word with the arity, which delimits the object;
//! 2. a word that tells the class of the object;
//! 3. the data.
use vstd::prelude::*;
use crate::defs::Word;
use crate::term::boxed::box_header::{spec_header_word, BoxHeader, BoxTypeTag};
use crate::term::classify::TermClass;

verus! {

#[derive(Clone, Copy, Debug, PartialEq, Eq, Structural)]
pub enum HeapObjType {
    Import,
    Binary,
}

/// Used to identify heap object type on heap.
#[derive(Clone, Copy, Debug, PartialEq, Eq, Structural)]
pub struct HeapObjClass {
    pub obj_type: HeapObjType,
    pub term_class: TermClass,
}

impl HeapObjClass {
    /// The box type under which objects of this class are found.
    pub open spec fn spec_box_type(self) -> BoxTypeTag {
        match self.obj_type {
            HeapObjType::Import => BoxTypeTag::Import,
            HeapObjType::Binary => BoxTypeTag::Binary,
        }
    }

    /// The word that stands for this class in the heap.
    pub open spec fn spec_code(self) -> Word {
        match self.obj_type {
            HeapObjType::Import => 0,
            HeapObjType::Binary => 1,
        }
    }

    pub fn box_type(self) -> (t: BoxTypeTag)
        ensures
            t == self.spec_box_type(),
    {
        match self.obj_type {
            HeapObjType::Import => BoxTypeTag::Import,
            HeapObjType::Binary => BoxTypeTag::Binary,
        }
    }

    pub fn code(self) -> (c: Word)
        ensures
            c == self.spec_code(),
    {
        match self.obj_type {
            HeapObjType::Import => 0,
            HeapObjType::Binary => 1,
        }
    }
}

#[derive(Clone, Copy, Debug, PartialEq, Eq, Structural)]
pub struct HeapObjHeader {
    pub header_word: Word,
    pub class: HeapObjClass,
}

impl HeapObjHeader {
    /// The header of an object of the class `cls` that takes `n_words` words,
    /// its header counted in.
    pub fn new(n_words: Word, cls: HeapObjClass) -> (h: HeapObjHeader)
        requires
            n_words >= 1,
        ensures
            h.header_word == spec_header_word(cls.spec_box_type(), (n_words - 1) as Word),
            h.class == cls,
    {
        HeapObjHeader {
            header_word: BoxHeader::new(cls.box_type(), n_words - 1).header_word,
            class: cls,
        }
    }
}

} // verus!
