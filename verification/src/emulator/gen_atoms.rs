//! The atoms that the runtime itself names. They are the first of every atom
//! table, in this order.
use vstd::prelude::*;
use crate::defs::Word;
use crate::emulator::atom::AtomTable;
use crate::term::lterm::{spec_tagged_word, LTerm, TermTag};

verus! {

pub const INDEX_FALSE: Word = 0;

pub const INDEX_TRUE: Word = 1;

pub const INDEX_BADARG: Word = 2;

pub const INDEX_BADFUN: Word = 3;

/// Number of the atoms that the runtime names.
pub const N_GEN_ATOMS: usize = 4;

/// The names of the atoms that the runtime names, by index.
pub open spec fn spec_gen_atom_names() -> Seq<Seq<char>> {
    seq!["false"@, "true"@, "badarg"@, "badfun"@]
}

pub open spec fn spec_false() -> LTerm {
    LTerm { value: spec_tagged_word(TermTag::Atom, INDEX_FALSE) }
}

pub open spec fn spec_true() -> LTerm {
    LTerm { value: spec_tagged_word(TermTag::Atom, INDEX_TRUE) }
}

pub open spec fn spec_badarg() -> LTerm {
    LTerm { value: spec_tagged_word(TermTag::Atom, INDEX_BADARG) }
}

pub open spec fn spec_badfun() -> LTerm {
    LTerm { value: spec_tagged_word(TermTag::Atom, INDEX_BADFUN) }
}

/// The atom `false`.
pub fn atom_false() -> (t: LTerm)
    ensures
        t == spec_false(),
{
    LTerm::make_atom(INDEX_FALSE)
}

/// The atom `true`.
pub fn atom_true() -> (t: LTerm)
    ensures
        t == spec_true(),
{
    LTerm::make_atom(INDEX_TRUE)
}

/// The atom `badarg`.
pub fn atom_badarg() -> (t: LTerm)
    ensures
        t == spec_badarg(),
{
    LTerm::make_atom(INDEX_BADARG)
}

/// The atom `badfun`.
pub fn atom_badfun() -> (t: LTerm)
    ensures
        t == spec_badfun(),
{
    LTerm::make_atom(INDEX_BADFUN)
}

/// An atom table that holds the atoms that the runtime names, and no others.
pub fn new_atom_table() -> (atoms: AtomTable)
    ensures
        atoms@ == spec_gen_atom_names(),
{
    let mut atoms = AtomTable::new();
    atoms.push_name("false");
    atoms.push_name("true");
    atoms.push_name("badarg");
    atoms.push_name("badfun");
    assert(atoms@ =~= spec_gen_atom_names());
    atoms
}

} // verus!
