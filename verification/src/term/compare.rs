//! The order of terms.
//!
//! Terms of different classes compare as their classes do. Within a class,
//! small integers compare by value, atoms, local pids and local ports by
//! index, and what stands in the word itself comes before what stands in the
//! heap. Lists compare element by element and then by what is left of them,
//! binaries byte by byte and then by length. Any other two objects compare by
//! their headers, then word by word where the words are plain data, and part
//! by part where they are terms; so tuples compare by size and then element by
//! element. Only what is no value of the language, such as a register
//! reference or a pointer to nothing, is compared as the raw words are, as a
//! last resort.
use vstd::prelude::*;
use std::cmp::Ordering;
use crate::bits::spec_word_byte;
use crate::defs::Word;
use crate::emulator::heap::copy_term::spec_raw_words;
use crate::emulator::heap::ho_binary::{spec_hobinary_storage_size, HOBINARY_FIXED_WORDS};
use crate::emulator::heap::{spec_addr_index, Heap, HeapView};
use crate::term::boxed::box_header::{
    headerword_to_arity, headerword_to_boxtype, spec_headerword_arity, BoxTypeTag,
};
use crate::term::classify::{classify_term_below, spec_classify_term, TermClass};
use crate::term::lterm::{LTerm, TermTag};

verus! {

/// How two integers compare: -1 for less, 0 for equal, 1 for greater.
pub open spec fn spec_int_order(a: int, b: int) -> int {
    if a < b {
        -1
    } else if a == b {
        0
    } else {
        1
    }
}

/// Whether the object at index `i` is a binary that is long enough for its
/// fixed fields and for the bytes that it says it has.
pub open spec fn spec_binary_at(hv: HeapView, i: nat) -> bool {
    &&& spec_headerword_arity(hv.data[i as int]) + 1 >= HOBINARY_FIXED_WORDS
    &&& spec_hobinary_storage_size(hv.term_at(i + 2).value as nat) <= spec_headerword_arity(
        hv.data[i as int],
    ) + 1
}

/// The bytes of the binary at index `i`.
pub open spec fn spec_bytes_at(hv: HeapView, i: nat) -> Seq<u8> {
    Seq::new(
        hv.term_at(i + 2).value as nat,
        |k: int| spec_word_byte(hv.data[i + HOBINARY_FIXED_WORDS + k / 8], (k % 8) as u64),
    )
}

/// The bytes of a term of the class of binaries: none for the empty binary,
/// those in the heap for a binary there, and nothing for an object that has
/// the type of a binary and not its form.
pub open spec fn spec_binary_bytes(hv: HeapView, t: LTerm) -> Option<Seq<u8>> {
    if t == LTerm::spec_empty_binary() {
        Some(Seq::<u8>::empty())
    } else if spec_binary_at(hv, spec_addr_index(t.value)) {
        Some(spec_bytes_at(hv, spec_addr_index(t.value)))
    } else {
        None
    }
}

/// How two sequences of bytes compare from the byte `k` on: as the first
/// pair of bytes that differ, and if one sequence ends before that, the
/// shorter first.
pub open spec fn spec_bytes_order(x: Seq<u8>, y: Seq<u8>, k: nat) -> int
    decreases x.len() - k,
{
    if k >= x.len() || k >= y.len() {
        spec_int_order(x.len() as int, y.len() as int)
    } else if x[k as int] != y[k as int] {
        spec_int_order(x[k as int] as int, y[k as int] as int)
    } else {
        spec_bytes_order(x, y, k + 1)
    }
}

/// The number of elements of a term of the class of tuples: none for the
/// empty tuple, the arity for a tuple in the heap.
pub open spec fn spec_tuple_size(hv: HeapView, t: LTerm) -> nat {
    if t == LTerm::spec_empty_tuple() {
        0
    } else {
        spec_headerword_arity(hv.box_header(t)) as nat
    }
}

/// How the terms `a` and `b` compare: -1 for less, 0 for equal, 1 for
/// greater. Pointers in `a` are followed into the first `ba` words of the
/// heap, pointers in `b` into the first `bb`.
pub open spec fn spec_term_order(
    hv: HeapView,
    a: LTerm,
    ba: nat,
    b: LTerm,
    bb: nat,
    exact: bool,
) -> int
    decreases ba, 2nat, 0nat,
{
    let ca = spec_classify_term(hv, a, ba);
    let cb = spec_classify_term(hv, b, bb);
    let ia = spec_addr_index(a.value);
    let ib = spec_addr_index(b.value);
    if ca != cb {
        spec_int_order(ca.rank() as int, cb.rank() as int)
    } else {
        match ca {
            TermClass::Number => if a.spec_is_small() && b.spec_is_small() {
                spec_int_order(a.spec_small_signed(), b.spec_small_signed())
            } else if a.spec_is_small() {
                -1
            } else if b.spec_is_small() {
                1
            } else {
                spec_object_order(hv, ia, ib, exact)
            },
            TermClass::Atom => spec_int_order(
                a.spec_val_without_tag() as int,
                b.spec_val_without_tag() as int,
            ),
            TermClass::Pid | TermClass::Port => if !a.spec_is_boxed() && !b.spec_is_boxed() {
                spec_int_order(a.spec_val_without_tag() as int, b.spec_val_without_tag() as int)
            } else if !a.spec_is_boxed() {
                -1
            } else if !b.spec_is_boxed() {
                1
            } else {
                spec_object_order(hv, ia, ib, exact)
            },
            TermClass::Tuple => if a.spec_is_boxed() && b.spec_is_boxed() {
                spec_object_order(hv, ia, ib, exact)
            } else {
                spec_int_order(spec_tuple_size(hv, a) as int, spec_tuple_size(hv, b) as int)
            },
            TermClass::Nil => 0,
            TermClass::List => spec_list_order(hv, hv.cons_index(a), hv.cons_index(b), exact),
            TermClass::Binary => match (spec_binary_bytes(hv, a), spec_binary_bytes(hv, b)) {
                (Some(x), Some(y)) => spec_bytes_order(x, y, 0),
                (Some(_), None) => -1,
                (None, Some(_)) => 1,
                (None, None) => spec_object_order(hv, ia, ib, exact),
            },
            TermClass::Ref | TermClass::Fun | TermClass::ErlMap => spec_object_order(
                hv,
                ia,
                ib,
                exact,
            ),
            TermClass::Special_ => spec_int_order(a.value as int, b.value as int),
        }
    }
}

/// How the objects at the indices `ia` and `ib` compare: as their header
/// words, and if these are the same, as the words after them.
pub open spec fn spec_object_order(hv: HeapView, ia: nat, ib: nat, exact: bool) -> int
    decreases ia + 1, 1nat, 0nat,
{
    let wa = hv.data[ia as int];
    let wb = hv.data[ib as int];
    if wa != wb {
        spec_int_order(wa as int, wb as int)
    } else {
        spec_payload_order(hv, ia, ib, wa, 0, exact)
    }
}

/// How the words from `k` on compare of the two objects at the indices `ia`
/// and `ib`, which have the same header word `w`: as the first pair of words
/// that are not equal. Words that are plain data compare as numbers, words
/// that are terms as terms.
pub open spec fn spec_payload_order(
    hv: HeapView,
    ia: nat,
    ib: nat,
    w: Word,
    k: nat,
    exact: bool,
) -> int
    decreases ia + 1, 0nat, spec_headerword_arity(w) - k,
{
    if k >= spec_headerword_arity(w) {
        0
    } else {
        let c = if k < spec_raw_words(w) {
            spec_int_order(hv.term_at(ia + 1 + k).value as int, hv.term_at(ib + 1 + k).value as int)
        } else {
            spec_term_order(hv, hv.term_at(ia + 1 + k), ia, hv.term_at(ib + 1 + k), ib, exact)
        };
        if c != 0 {
            c
        } else {
            spec_payload_order(hv, ia, ib, w, k + 1, exact)
        }
    }
}

/// How two lists compare that begin with the cells at the indices `ia` and
/// `ib`: as their heads, and if these are equal, as their tails.
pub open spec fn spec_list_order(hv: HeapView, ia: nat, ib: nat, exact: bool) -> int
    decreases ia + 1, 0nat, 0nat,
{
    let c = spec_term_order(hv, hv.term_at(ia), ia, hv.term_at(ib), ib, exact);
    if c != 0 {
        c
    } else {
        let ta = hv.term_at(ia + 1);
        let tb = hv.term_at(ib + 1);
        if hv.is_cons_below(ta, ia) && hv.is_cons_below(tb, ib) {
            spec_list_order(hv, hv.cons_index(ta), hv.cons_index(tb), exact)
        } else {
            spec_term_order(hv, ta, ia, tb, ib, exact)
        }
    }
}

fn int_order(a: i128, b: i128) -> (c: i8)
    ensures
        c == spec_int_order(a as int, b as int),
{
    if a < b {
        -1
    } else if a == b {
        0
    } else {
        1
    }
}

/// The number of bytes of the binary at index `i`, if the object there has
/// the form of a binary.
fn binary_len_at(hp: &Heap, i: usize) -> (r: Option<Word>)
    requires
        hp.wf(),
        i < hp@.heap_top,
        i + 1 + spec_headerword_arity(hp@.data[i as int]) <= hp@.heap_top,
    ensures
        r.is_some() == spec_binary_at(hp@, i as nat),
        r.is_some() ==> r.unwrap() == hp@.term_at((i + 2) as nat).value && i
            + HOBINARY_FIXED_WORDS + (r.unwrap() + 7) / 8 <= hp@.heap_top,
{
    let arity: Word = headerword_to_arity(hp.get_word(i));
    if arity < 3 {
        return None;
    }
    let n_bytes: Word = hp.get_word(i + 2);
    if n_bytes / 8 > arity || (n_bytes + 7) / 8 > arity - 3 {
        return None;
    }
    Some(n_bytes)
}

/// The byte `k` of the binary at index `i`.
fn byte_at(hp: &Heap, i: usize, k: Word) -> (b: u8)
    requires
        hp.wf(),
        i + HOBINARY_FIXED_WORDS + k / 8 < hp@.heap_top,
    ensures
        b == spec_word_byte(hp@.data[i + HOBINARY_FIXED_WORDS + k / 8], (k % 8) as u64),
{
    let w: Word = hp.get_word(i + HOBINARY_FIXED_WORDS + (k / 8) as usize);
    let j: Word = k % 8;
    ((w >> (8 * j)) & 0xff) as u8
}

/// How two terms of the class of binaries compare.
fn binary_order(hp: &Heap, a: LTerm, ba: usize, b: LTerm, bb: usize, exact: bool) -> (c: i8)
    requires
        hp.wf(),
        ba <= hp@.heap_top,
        bb <= hp@.heap_top,
        spec_classify_term(hp@, a, ba as nat) == TermClass::Binary,
        spec_classify_term(hp@, b, bb as nat) == TermClass::Binary,
    ensures
        c == spec_term_order(hp@, a, ba as nat, b, bb as nat, exact),
        -1 <= c <= 1,
    decreases ba, 1nat, 1nat,
{
    let ia: usize = if a == LTerm::empty_binary() {
        0
    } else {
        hp.find_box(a, ba).unwrap().0
    };
    let ib: usize = if b == LTerm::empty_binary() {
        0
    } else {
        hp.find_box(b, bb).unwrap().0
    };
    let la: Option<Word> = if a == LTerm::empty_binary() {
        Some(0)
    } else {
        binary_len_at(hp, ia)
    };
    let lb: Option<Word> = if b == LTerm::empty_binary() {
        Some(0)
    } else {
        binary_len_at(hp, ib)
    };
    match (la, lb) {
        (Some(na), Some(nb)) => {
            let ghost x = spec_binary_bytes(hp@, a).unwrap();
            let ghost y = spec_binary_bytes(hp@, b).unwrap();
            let mut k: Word = 0;
            while k < na && k < nb
                invariant
                    hp.wf(),
                    k <= na,
                    k <= nb,
                    na == x.len(),
                    nb == y.len(),
                    na > 0 ==> x == spec_bytes_at(hp@, ia as nat) && ia + HOBINARY_FIXED_WORDS + (
                    na + 7) / 8 <= hp@.heap_top,
                    nb > 0 ==> y == spec_bytes_at(hp@, ib as nat) && ib + HOBINARY_FIXED_WORDS + (
                    nb + 7) / 8 <= hp@.heap_top,
                    spec_bytes_order(x, y, k as nat) == spec_bytes_order(x, y, 0),
                    spec_term_order(hp@, a, ba as nat, b, bb as nat, exact) == spec_bytes_order(
                        x,
                        y,
                        0,
                    ),
                decreases na - k,
            {
                let xa: u8 = byte_at(hp, ia, k);
                let xb: u8 = byte_at(hp, ib, k);
                assert(xa == x[k as int]);
                assert(xb == y[k as int]);
                if xa != xb {
                    return int_order(xa as i128, xb as i128);
                }
                k = k + 1;
            }
            int_order(na as i128, nb as i128)
        },
        (Some(_), None) => -1,
        (None, Some(_)) => 1,
        (None, None) => object_order(hp, ia, ib, exact),
    }
}

/// How the objects at the given indices compare.
pub fn object_order(hp: &Heap, ia: usize, ib: usize, exact: bool) -> (c: i8)
    requires
        hp.wf(),
        ia < hp@.heap_top,
        ib < hp@.heap_top,
        ia + 1 + spec_headerword_arity(hp@.data[ia as int]) <= hp@.heap_top,
        ib + 1 + spec_headerword_arity(hp@.data[ib as int]) <= hp@.heap_top,
    ensures
        c == spec_object_order(hp@, ia as nat, ib as nat, exact),
        -1 <= c <= 1,
    decreases ia + 1, 1nat, 0nat,
{
    let wa: Word = hp.get_word(ia);
    let wb: Word = hp.get_word(ib);
    if wa != wb {
        return int_order(wa as i128, wb as i128);
    }
    let arity: usize = headerword_to_arity(wa) as usize;
    let raw: usize = match headerword_to_boxtype(wa) {
        Some(BoxTypeTag::Tuple) => 0,
        Some(BoxTypeTag::Closure) => if arity < 6 {
            arity
        } else {
            6
        },
        _ => arity,
    };
    let mut k: usize = 0;
    while k < arity
        invariant
            hp.wf(),
            k <= arity,
            arity == spec_headerword_arity(wa),
            raw == spec_raw_words(wa),
            ia + 1 + arity <= hp@.heap_top,
            ib + 1 + arity <= hp@.heap_top,
            spec_payload_order(hp@, ia as nat, ib as nat, wa, k as nat, exact)
                == spec_payload_order(hp@, ia as nat, ib as nat, wa, 0, exact),
            spec_object_order(hp@, ia as nat, ib as nat, exact) == spec_payload_order(
                hp@,
                ia as nat,
                ib as nat,
                wa,
                0,
                exact,
            ),
        decreases arity - k,
    {
        let ea = hp.get_term(ia + 1 + k);
        let eb = hp.get_term(ib + 1 + k);
        let c: i8 = if k < raw {
            int_order(ea.raw() as i128, eb.raw() as i128)
        } else {
            term_order(hp, ea, ia, eb, ib, exact)
        };
        if c != 0 {
            return c;
        }
        k = k + 1;
    }
    0
}

/// How two lists compare that begin with the cells at the given indices.
pub fn list_order(hp: &Heap, ia: usize, ib: usize, exact: bool) -> (c: i8)
    requires
        hp.wf(),
        ia + 2 <= hp@.heap_top,
        ib + 2 <= hp@.heap_top,
    ensures
        c == spec_list_order(hp@, ia as nat, ib as nat, exact),
        -1 <= c <= 1,
    decreases ia + 1, 0nat, 0nat,
{
    let mut cur_a: usize = ia;
    let mut cur_b: usize = ib;
    loop
        invariant
            hp.wf(),
            cur_a <= ia,
            cur_a + 2 <= hp@.heap_top,
            cur_b + 2 <= hp@.heap_top,
            spec_list_order(hp@, cur_a as nat, cur_b as nat, exact) == spec_list_order(
                hp@,
                ia as nat,
                ib as nat,
                exact,
            ),
        decreases cur_a,
    {
        let cell_a = hp.read_cons(cur_a);
        let cell_b = hp.read_cons(cur_b);
        let c = term_order(hp, cell_a.hd(), cur_a, cell_b.hd(), cur_b, exact);
        if c != 0 {
            return c;
        }
        let ta = cell_a.tl();
        let tb = cell_b.tl();
        let next_a = hp.find_cons(ta, cur_a);
        let next_b = hp.find_cons(tb, cur_b);
        if next_a.is_some() && next_b.is_some() {
            cur_a = next_a.unwrap();
            cur_b = next_b.unwrap();
        } else {
            return term_order(hp, ta, cur_a, tb, cur_b, exact);
        }
    }
}

/// The number of elements of a term of the class of tuples.
fn tuple_size(hp: &Heap, t: LTerm, bound: usize) -> (n: usize)
    requires
        hp.wf(),
        bound <= hp@.heap_top,
        spec_classify_term(hp@, t, bound as nat) == TermClass::Tuple,
    ensures
        n == spec_tuple_size(hp@, t),
{
    if t == LTerm::empty_tuple() {
        0
    } else {
        hp.find_box(t, bound).unwrap().1.get_arity() as usize
    }
}

/// How two terms of one class compare of which each is a word that holds its
/// value or a pointer to an object: words by the value that they hold, a
/// word before an object, and objects as objects.
fn word_or_object_order(hp: &Heap, a: LTerm, ba: usize, b: LTerm, bb: usize, exact: bool) -> (c:
    i8)
    requires
        hp.wf(),
        ba <= hp@.heap_top,
        bb <= hp@.heap_top,
        a.spec_is_boxed() ==> hp@.is_box_below(a, ba as nat),
        b.spec_is_boxed() ==> hp@.is_box_below(b, bb as nat),
        !a.spec_is_cons(),
        !b.spec_is_cons(),
    ensures
        c == if !a.spec_is_boxed() && !b.spec_is_boxed() {
            spec_int_order(a.spec_val_without_tag() as int, b.spec_val_without_tag() as int)
        } else if !a.spec_is_boxed() {
            -1
        } else if !b.spec_is_boxed() {
            1
        } else {
            spec_object_order(
                hp@,
                spec_addr_index(a.value),
                spec_addr_index(b.value),
                exact,
            )
        },
        -1 <= c <= 1,
    decreases ba, 1nat, 1nat,
{
    if !a.is_boxed() && !b.is_boxed() {
        int_order(a.get_term_val_without_tag() as i128, b.get_term_val_without_tag() as i128)
    } else if !a.is_boxed() {
        -1
    } else if !b.is_boxed() {
        1
    } else {
        let ia: usize = hp.find_box(a, ba).unwrap().0;
        let ib: usize = hp.find_box(b, bb).unwrap().0;
        object_order(hp, ia, ib, exact)
    }
}

/// How the terms `a` and `b` compare: -1 for less, 0 for equal, 1 for
/// greater.
pub fn term_order(hp: &Heap, a: LTerm, ba: usize, b: LTerm, bb: usize, exact: bool) -> (c: i8)
    requires
        hp.wf(),
        ba <= hp@.heap_top,
        bb <= hp@.heap_top,
    ensures
        c == spec_term_order(hp@, a, ba as nat, b, bb as nat, exact),
        -1 <= c <= 1,
    decreases ba, 2nat, 0nat,
{
    let ca = classify_term_below(hp, a, ba);
    let cb = classify_term_below(hp, b, bb);
    if ca != cb {
        return int_order(ca.get_rank() as i128, cb.get_rank() as i128);
    }
    match ca {
        TermClass::Number => {
            if a.is_small() && b.is_small() {
                int_order(a.get_small_signed() as i128, b.get_small_signed() as i128)
            } else if a.is_small() {
                -1
            } else if b.is_small() {
                1
            } else {
                let ia: usize = hp.find_box(a, ba).unwrap().0;
                let ib: usize = hp.find_box(b, bb).unwrap().0;
                object_order(hp, ia, ib, exact)
            }
        },
        TermClass::Atom => int_order(a.atom_index() as i128, b.atom_index() as i128),
        TermClass::Pid => word_or_object_order(hp, a, ba, b, bb, exact),
        TermClass::Port => word_or_object_order(hp, a, ba, b, bb, exact),
        TermClass::Tuple => {
            if a.is_boxed() && b.is_boxed() {
                let ia: usize = hp.find_box(a, ba).unwrap().0;
                let ib: usize = hp.find_box(b, bb).unwrap().0;
                object_order(hp, ia, ib, exact)
            } else {
                int_order(tuple_size(hp, a, ba) as i128, tuple_size(hp, b, bb) as i128)
            }
        },
        TermClass::Nil => 0,
        TermClass::List => {
            let ia: usize = hp.find_cons(a, ba).unwrap();
            let ib: usize = hp.find_cons(b, bb).unwrap();
            list_order(hp, ia, ib, exact)
        },
        TermClass::Binary => binary_order(hp, a, ba, b, bb, exact),
        TermClass::Ref | TermClass::Fun | TermClass::ErlMap => {
            let ia: usize = hp.find_box(a, ba).unwrap().0;
            let ib: usize = hp.find_box(b, bb).unwrap().0;
            object_order(hp, ia, ib, exact)
        },
        TermClass::Special_ => int_order(a.raw() as i128, b.raw() as i128),
    }
}

/// Compare two terms of one heap. With `exact` numbers of different kinds
/// are never equal; as all numbers here are of one kind, it changes nothing.
pub fn cmp_terms(hp: &Heap, a: LTerm, b: LTerm, exact: bool) -> (r: Ordering)
    requires
        hp.wf(),
    ensures
        (r == Ordering::Less) == (spec_term_order(hp@, a, hp@.heap_top, b, hp@.heap_top, exact)
            == -1),
        (r == Ordering::Equal) == (spec_term_order(hp@, a, hp@.heap_top, b, hp@.heap_top, exact)
            == 0),
        (r == Ordering::Greater) == (spec_term_order(hp@, a, hp@.heap_top, b, hp@.heap_top, exact)
            == 1),
{
    let top: usize = hp.get_heap_top();
    let c = term_order(hp, a, top, b, top, exact);
    if c < 0 {
        Ordering::Less
    } else if c == 0 {
        Ordering::Equal
    } else {
        Ordering::Greater
    }
}

} // verus!
