//! The atom table: the names of the atoms, found by the index that an atom
//! term carries.
use vstd::prelude::*;
use vstd::string::StringExecFns;
use crate::defs::Word;
use crate::fail::{Error, Hopefully};
use crate::term::lterm::{LTerm, TERM_VALUE_RANGE};

verus! {

/// The names of all atoms, in the order in which they were registered.
pub struct AtomTable {
    names: Vec<String>,
}

impl View for AtomTable {
    type V = Seq<Seq<char>>;

    closed spec fn view(&self) -> Seq<Seq<char>> {
        Seq::new(self.names@.len(), |i: int| self.names@[i]@)
    }
}

/// Whether `t` is an atom whose name stands in a table with the names `atoms`.
pub open spec fn spec_atom_known(atoms: Seq<Seq<char>>, t: LTerm) -> bool {
    t.spec_is_atom() && t.spec_val_without_tag() < atoms.len()
}

/// The least index at which `name` stands among `atoms`, or their number if
/// it stands nowhere.
pub open spec fn spec_atom_position(atoms: Seq<Seq<char>>, name: Seq<char>) -> nat
    decreases atoms.len(),
{
    if atoms.len() == 0 {
        0
    } else if atoms[0] == name {
        0
    } else {
        1 + spec_atom_position(atoms.drop_first(), name)
    }
}

proof fn lemma_atom_position(atoms: Seq<Seq<char>>, name: Seq<char>, k: nat)
    requires
        k <= atoms.len(),
        forall|j: int| 0 <= j < k ==> atoms[j] != name,
        k < atoms.len() ==> atoms[k as int] == name,
    ensures
        spec_atom_position(atoms, name) == k,
    decreases atoms.len(),
{
    if atoms.len() > 0 && k > 0 {
        let rest = atoms.drop_first();
        assert forall|j: int| 0 <= j < k - 1 implies rest[j] != name by {
            assert(rest[j] == atoms[j + 1]);
        }
        if k < atoms.len() {
            assert(rest[k - 1] == atoms[k as int]);
        }
        lemma_atom_position(rest, name, (k - 1) as nat);
    }
}

impl AtomTable {
    pub fn new() -> (t: AtomTable)
        ensures
            t@ == Seq::<Seq<char>>::empty(),
    {
        let t = AtomTable { names: Vec::new() };
        assert(t@ =~= Seq::<Seq<char>>::empty());
        t
    }

    pub fn len(&self) -> (n: usize)
        ensures
            n == self@.len(),
    {
        self.names.len()
    }

    /// Puts `name` at the end of the table, whether it stands there or not.
    pub(crate) fn push_name(&mut self, name: &str)
        ensures
            final(self)@ == old(self)@.push(name@),
    {
        self.names.push(String::from_str(name));
        assert(self@ =~= old(self)@.push(name@));
    }

    /// The atom with the name `name`: the one that stands in the table, or a
    /// new one at its end.
    pub fn from_str(&mut self, name: &str) -> (t: LTerm)
        requires
            old(self)@.len() < TERM_VALUE_RANGE,
        ensures
            t.spec_is_atom(),
            t.spec_val_without_tag() == spec_atom_position(old(self)@, name@),
            spec_atom_position(old(self)@, name@) < old(self)@.len() ==> final(self)@ == old(self)@,
            spec_atom_position(old(self)@, name@) == old(self)@.len() ==> final(self)@ == old(self)@.push(name@),
            final(self)@[t.spec_val_without_tag() as int] == name@,
    {
        let n: usize = self.names.len();
        let owned: String = String::from_str(name);
        let mut i: usize = 0;
        while i < n
            invariant
                i <= n,
                n < TERM_VALUE_RANGE,
                owned@ == name@,
                n == self.names@.len(),
                self.names@ == old(self).names@,
                forall|j: int| 0 <= j < i ==> old(self)@[j] != name@,
            decreases n - i,
        {
            if self.names[i] == owned {
                proof {
                    assert(old(self)@[i as int] == name@);
                    lemma_atom_position(old(self)@, name@, i as nat);
                    assert(self@ =~= old(self)@);
                }
                return LTerm::make_atom(i as Word);
            }
            i = i + 1;
        }
        proof {
            lemma_atom_position(old(self)@, name@, n as nat);
        }
        self.names.push(owned);
        assert(self@ =~= old(self)@.push(name@));
        LTerm::make_atom(n as Word)
    }

    /// The name of the atom `t`, if `t` is an atom of this table.
    pub fn lookup(&self, t: LTerm) -> (r: Option<&String>)
        ensures
            spec_atom_known(self@, t) ==> r.is_some() && r.unwrap()@ == self@[t.spec_val_without_tag() as int],
            !spec_atom_known(self@, t) ==> r.is_none(),
    {
        if !t.is_atom() {
            return None;
        }
        let i: Word = t.atom_index();
        if i < self.names.len() as Word {
            Some(&self.names[i as usize])
        } else {
            None
        }
    }

    /// The name of the atom `t` as a string of its own.
    pub fn to_str(&self, t: LTerm) -> (r: Hopefully<String>)
        ensures
            spec_atom_known(self@, t) ==> r.is_ok() && r.unwrap()@ == self@[t.spec_val_without_tag() as int],
            !spec_atom_known(self@, t) ==> r == Err::<String, Error>(Error::AtomNotExist),
    {
        match self.lookup(t) {
            Some(name) => Ok(name.clone()),
            None => Err(Error::AtomNotExist),
        }
    }
}

} // verus!
