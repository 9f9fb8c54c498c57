//! The order of terms is a total order up to equality: any two terms
//! compare, a term is equal to itself, two terms compare the other way round
//! when they are swapped, and what is at most a second term that is at most a
//! third is at most the third.
use vstd::prelude::*;
use crate::defs::Word;
use crate::emulator::heap::copy_term::spec_raw_words;
use crate::emulator::heap::{spec_addr_index, HeapView};
use crate::term::boxed::box_header::spec_headerword_arity;
use crate::term::classify::{spec_classify_term, TermClass};
use crate::term::compare::{
    spec_binary_bytes, spec_bytes_order, spec_int_order, spec_list_order, spec_object_order,
    spec_payload_order, spec_term_order,
};
use crate::term::lterm::LTerm;

verus! {

/// Two sequences of bytes compare the other way round when they are swapped.
pub proof fn lemma_bytes_order_antisym(x: Seq<u8>, y: Seq<u8>, k: nat)
    ensures
        -1 <= spec_bytes_order(x, y, k) <= 1,
        spec_bytes_order(x, y, k) == -spec_bytes_order(y, x, k),
    decreases x.len() - k,
{
    if k < x.len() && k < y.len() && x[k as int] == y[k as int] {
        lemma_bytes_order_antisym(x, y, k + 1);
    }
}

/// The order of sequences of bytes is transitive.
pub proof fn lemma_bytes_order_trans(x: Seq<u8>, y: Seq<u8>, z: Seq<u8>, k: nat)
    requires
        spec_bytes_order(x, y, k) <= 0,
        spec_bytes_order(y, z, k) <= 0,
    ensures
        spec_bytes_order(x, z, k) <= 0,
    decreases x.len() - k,
{
    if k < x.len() && k < y.len() && k < z.len() && x[k as int] == y[k as int] && y[k as int]
        == z[k as int] {
        lemma_bytes_order_trans(x, y, z, k + 1);
    }
}

/// The order of two lists is that of their heads, and for equal heads that
/// of their tails.
pub proof fn lemma_list_order_by_parts(hv: HeapView, ia: nat, ib: nat, exact: bool)
    ensures
        spec_list_order(hv, ia, ib, exact) == if spec_term_order(
            hv,
            hv.term_at(ia),
            ia,
            hv.term_at(ib),
            ib,
            exact,
        ) != 0 {
            spec_term_order(hv, hv.term_at(ia), ia, hv.term_at(ib), ib, exact)
        } else {
            spec_term_order(hv, hv.term_at(ia + 1), ia, hv.term_at(ib + 1), ib, exact)
        },
{
    let ta = hv.term_at(ia + 1);
    let tb = hv.term_at(ib + 1);
    if hv.is_cons_below(ta, ia) && hv.is_cons_below(tb, ib) {
        assert(spec_classify_term(hv, ta, ia) == TermClass::List);
        assert(spec_classify_term(hv, tb, ib) == TermClass::List);
    }
}

/// Any two terms compare, and they compare the other way round when they
/// are swapped.
pub proof fn lemma_term_order_antisym(
    hv: HeapView,
    a: LTerm,
    ba: nat,
    b: LTerm,
    bb: nat,
    exact: bool,
)
    ensures
        -1 <= spec_term_order(hv, a, ba, b, bb, exact) <= 1,
        spec_term_order(hv, a, ba, b, bb, exact) == -spec_term_order(hv, b, bb, a, ba, exact),
    decreases ba + bb, 2nat, 0nat,
{
    let ca = spec_classify_term(hv, a, ba);
    let cb = spec_classify_term(hv, b, bb);
    let ia = spec_addr_index(a.value);
    let ib = spec_addr_index(b.value);
    if ca == cb {
        match ca {
            TermClass::Number => {
                if !a.spec_is_small() && !b.spec_is_small() {
                    lemma_object_order_antisym(hv, ia, ib, exact);
                }
            },
            TermClass::Pid | TermClass::Port | TermClass::Tuple => {
                if a.spec_is_boxed() && b.spec_is_boxed() {
                    lemma_object_order_antisym(hv, ia, ib, exact);
                }
            },
            TermClass::List => {
                lemma_list_order_antisym(hv, hv.cons_index(a), hv.cons_index(b), exact);
            },
            TermClass::Binary => {
                match (spec_binary_bytes(hv, a), spec_binary_bytes(hv, b)) {
                    (Some(x), Some(y)) => {
                        lemma_bytes_order_antisym(x, y, 0);
                    },
                    (None, None) => {
                        lemma_object_order_antisym(hv, ia, ib, exact);
                    },
                    _ => {},
                }
            },
            TermClass::Ref | TermClass::Fun | TermClass::ErlMap => {
                lemma_object_order_antisym(hv, ia, ib, exact);
            },
            _ => {},
        }
    }
}

/// The same for two objects.
pub proof fn lemma_object_order_antisym(hv: HeapView, ia: nat, ib: nat, exact: bool)
    ensures
        -1 <= spec_object_order(hv, ia, ib, exact) <= 1,
        spec_object_order(hv, ia, ib, exact) == -spec_object_order(hv, ib, ia, exact),
    decreases ia + ib + 2, 1nat, 0nat,
{
    if hv.data[ia as int] == hv.data[ib as int] {
        lemma_payload_order_antisym(hv, ia, ib, hv.data[ia as int], 0, exact);
    }
}

/// The same for the words of two objects.
pub proof fn lemma_payload_order_antisym(
    hv: HeapView,
    ia: nat,
    ib: nat,
    w: Word,
    k: nat,
    exact: bool,
)
    ensures
        -1 <= spec_payload_order(hv, ia, ib, w, k, exact) <= 1,
        spec_payload_order(hv, ia, ib, w, k, exact) == -spec_payload_order(
            hv,
            ib,
            ia,
            w,
            k,
            exact,
        ),
    decreases ia + ib + 2, 0nat, spec_headerword_arity(w) - k,
{
    if k < spec_headerword_arity(w) {
        if k >= spec_raw_words(w) {
            lemma_term_order_antisym(
                hv,
                hv.term_at(ia + 1 + k),
                ia,
                hv.term_at(ib + 1 + k),
                ib,
                exact,
            );
        }
        lemma_payload_order_antisym(hv, ia, ib, w, k + 1, exact);
    }
}

/// The same for two lists.
pub proof fn lemma_list_order_antisym(hv: HeapView, ia: nat, ib: nat, exact: bool)
    ensures
        -1 <= spec_list_order(hv, ia, ib, exact) <= 1,
        spec_list_order(hv, ia, ib, exact) == -spec_list_order(hv, ib, ia, exact),
    decreases ia + ib + 2, 0nat, 0nat,
{
    lemma_list_order_by_parts(hv, ia, ib, exact);
    lemma_list_order_by_parts(hv, ib, ia, exact);
    lemma_term_order_antisym(hv, hv.term_at(ia), ia, hv.term_at(ib), ib, exact);
    lemma_term_order_antisym(hv, hv.term_at(ia + 1), ia, hv.term_at(ib + 1), ib, exact);
}

/// A term is equal to itself.
pub proof fn lemma_term_order_refl(hv: HeapView, a: LTerm, ba: nat, exact: bool)
    ensures
        spec_term_order(hv, a, ba, a, ba, exact) == 0,
{
    lemma_term_order_antisym(hv, a, ba, a, ba, exact);
}

/// The order of terms is transitive: a term that is at most a second, which
/// is at most a third, is at most the third.
pub proof fn lemma_term_order_trans(
    hv: HeapView,
    a: LTerm,
    ba: nat,
    b: LTerm,
    bb: nat,
    c: LTerm,
    bc: nat,
    exact: bool,
)
    requires
        spec_term_order(hv, a, ba, b, bb, exact) <= 0,
        spec_term_order(hv, b, bb, c, bc, exact) <= 0,
    ensures
        spec_term_order(hv, a, ba, c, bc, exact) <= 0,
    decreases ba + bb + bc, 2nat, 0nat,
{
    let ca = spec_classify_term(hv, a, ba);
    let cb = spec_classify_term(hv, b, bb);
    let cc = spec_classify_term(hv, c, bc);
    let ia = spec_addr_index(a.value);
    let ib = spec_addr_index(b.value);
    let ic = spec_addr_index(c.value);
    if ca == cb && cb == cc {
        match ca {
            TermClass::Number => {
                if !a.spec_is_small() && !b.spec_is_small() && !c.spec_is_small() {
                    lemma_object_order_trans(hv, ia, ib, ic, exact);
                }
            },
            TermClass::Pid | TermClass::Port => {
                if a.spec_is_boxed() && b.spec_is_boxed() && c.spec_is_boxed() {
                    lemma_object_order_trans(hv, ia, ib, ic, exact);
                }
            },
            TermClass::Tuple => {
                if a.spec_is_boxed() && b.spec_is_boxed() && c.spec_is_boxed() {
                    lemma_object_order_trans(hv, ia, ib, ic, exact);
                } else {
                    lemma_tuple_header(hv, a, ba);
                    lemma_tuple_header(hv, b, bb);
                    lemma_tuple_header(hv, c, bc);
                    if a.spec_is_boxed() && b.spec_is_boxed() {
                        lemma_object_order_of_headers(hv, ia, ib, exact);
                    }
                    if b.spec_is_boxed() && c.spec_is_boxed() {
                        lemma_object_order_of_headers(hv, ib, ic, exact);
                    }
                    if a.spec_is_boxed() && c.spec_is_boxed() {
                        lemma_object_order_of_headers(hv, ia, ic, exact);
                    }
                }
            },
            TermClass::List => {
                lemma_list_order_trans(
                    hv,
                    hv.cons_index(a),
                    hv.cons_index(b),
                    hv.cons_index(c),
                    exact,
                );
            },
            TermClass::Binary => {
                match (spec_binary_bytes(hv, a), spec_binary_bytes(hv, b), spec_binary_bytes(hv, c)) {
                    (Some(x), Some(y), Some(z)) => {
                        lemma_bytes_order_trans(x, y, z, 0);
                    },
                    (None, None, None) => {
                        lemma_object_order_trans(hv, ia, ib, ic, exact);
                    },
                    _ => {},
                }
            },
            TermClass::Ref | TermClass::Fun | TermClass::ErlMap => {
                lemma_object_order_trans(hv, ia, ib, ic, exact);
            },
            _ => {},
        }
    } else {
        lemma_term_order_antisym(hv, a, ba, b, bb, exact);
        lemma_term_order_antisym(hv, b, bb, c, bc, exact);
        lemma_term_order_antisym(hv, a, ba, c, bc, exact);
    }
}

/// The header word of a tuple in the heap is its size times 128, and one.
proof fn lemma_tuple_header(hv: HeapView, t: LTerm, bound: nat)
    requires
        spec_classify_term(hv, t, bound) == TermClass::Tuple,
    ensures
        t.spec_is_boxed() ==> hv.data[spec_addr_index(t.value) as int] == 128
            * spec_headerword_arity(hv.data[spec_addr_index(t.value) as int]) + 1,
{
}

/// Two objects without words after their headers compare as their headers.
proof fn lemma_object_order_of_headers(hv: HeapView, ia: nat, ib: nat, exact: bool)
    ensures
        hv.data[ia as int] != hv.data[ib as int] ==> spec_object_order(hv, ia, ib, exact)
            == spec_int_order(hv.data[ia as int] as int, hv.data[ib as int] as int),
        hv.data[ia as int] == hv.data[ib as int] && spec_headerword_arity(hv.data[ia as int]) == 0
            ==> spec_object_order(hv, ia, ib, exact) == 0,
{
}

/// What holds of three terms when the order is transitive on them, however
/// they are arranged: equal to equal is equal, and less is kept by at most.
pub proof fn lemma_term_order_of_three(
    hv: HeapView,
    x: LTerm,
    bx: nat,
    y: LTerm,
    by: nat,
    z: LTerm,
    bz: nat,
    exact: bool,
)
    ensures
        spec_term_order(hv, x, bx, y, by, exact) == 0 && spec_term_order(hv, y, by, z, bz, exact)
            == 0 ==> spec_term_order(hv, x, bx, z, bz, exact) == 0,
        spec_term_order(hv, x, bx, y, by, exact) <= 0 && spec_term_order(hv, y, by, z, bz, exact)
            <= 0 ==> spec_term_order(hv, x, bx, z, bz, exact) <= 0,
        spec_term_order(hv, x, bx, y, by, exact) < 0 && spec_term_order(hv, y, by, z, bz, exact)
            <= 0 ==> spec_term_order(hv, x, bx, z, bz, exact) < 0,
        spec_term_order(hv, x, bx, y, by, exact) <= 0 && spec_term_order(hv, y, by, z, bz, exact)
            < 0 ==> spec_term_order(hv, x, bx, z, bz, exact) < 0,
    decreases bx + by + bz, 3nat, 0nat,
{
    lemma_term_order_antisym(hv, x, bx, y, by, exact);
    lemma_term_order_antisym(hv, y, by, z, bz, exact);
    lemma_term_order_antisym(hv, x, bx, z, bz, exact);
    let xy = spec_term_order(hv, x, bx, y, by, exact);
    let yz = spec_term_order(hv, y, by, z, bz, exact);
    let xz = spec_term_order(hv, x, bx, z, bz, exact);
    if xy <= 0 && yz <= 0 {
        lemma_term_order_trans(hv, x, bx, y, by, z, bz, exact);
    }
    if yz <= 0 && xz >= 0 {
        // y <= z <= x
        lemma_term_order_trans(hv, y, by, z, bz, x, bx, exact);
    }
    if xz >= 0 && xy <= 0 {
        // z <= x <= y
        lemma_term_order_trans(hv, z, bz, x, bx, y, by, exact);
    }
    if yz >= 0 && xy >= 0 {
        // z <= y <= x
        lemma_term_order_trans(hv, z, bz, y, by, x, bx, exact);
    }
    if xy >= 0 && xz <= 0 {
        // y <= x <= z
        lemma_term_order_trans(hv, y, by, x, bx, z, bz, exact);
    }
    if xz <= 0 && yz >= 0 {
        // x <= z <= y
        lemma_term_order_trans(hv, x, bx, z, bz, y, by, exact);
    }
}

/// The order of objects is transitive.
pub proof fn lemma_object_order_trans(hv: HeapView, ia: nat, ib: nat, ic: nat, exact: bool)
    requires
        spec_object_order(hv, ia, ib, exact) <= 0,
        spec_object_order(hv, ib, ic, exact) <= 0,
    ensures
        spec_object_order(hv, ia, ic, exact) <= 0,
    decreases ia + ib + ic + 3, 1nat, 0nat,
{
    let wa = hv.data[ia as int];
    let wb = hv.data[ib as int];
    let wc = hv.data[ic as int];
    if wa == wb && wb == wc {
        lemma_payload_order_trans(hv, ia, ib, ic, wa, 0, exact);
    }
}

/// The order of the words of objects is transitive.
pub proof fn lemma_payload_order_trans(
    hv: HeapView,
    ia: nat,
    ib: nat,
    ic: nat,
    w: Word,
    k: nat,
    exact: bool,
)
    requires
        spec_payload_order(hv, ia, ib, w, k, exact) <= 0,
        spec_payload_order(hv, ib, ic, w, k, exact) <= 0,
    ensures
        spec_payload_order(hv, ia, ic, w, k, exact) <= 0,
    decreases ia + ib + ic + 3, 0nat, spec_headerword_arity(w) - k,
{
    if k < spec_headerword_arity(w) {
        let ea = hv.term_at(ia + 1 + k);
        let eb = hv.term_at(ib + 1 + k);
        let ec = hv.term_at(ic + 1 + k);
        if k >= spec_raw_words(w) {
            lemma_term_order_of_three(hv, ea, ia, eb, ib, ec, ic, exact);
            if spec_term_order(hv, ea, ia, eb, ib, exact) == 0 && spec_term_order(
                hv,
                eb,
                ib,
                ec,
                ic,
                exact,
            ) == 0 {
                lemma_payload_order_trans(hv, ia, ib, ic, w, k + 1, exact);
            }
        } else {
            if ea.value == eb.value && eb.value == ec.value {
                lemma_payload_order_trans(hv, ia, ib, ic, w, k + 1, exact);
            }
        }
    }
}

/// The order of lists is transitive.
pub proof fn lemma_list_order_trans(hv: HeapView, ia: nat, ib: nat, ic: nat, exact: bool)
    requires
        spec_list_order(hv, ia, ib, exact) <= 0,
        spec_list_order(hv, ib, ic, exact) <= 0,
    ensures
        spec_list_order(hv, ia, ic, exact) <= 0,
    decreases ia + ib + ic + 3, 0nat, 0nat,
{
    lemma_list_order_by_parts(hv, ia, ib, exact);
    lemma_list_order_by_parts(hv, ib, ic, exact);
    lemma_list_order_by_parts(hv, ia, ic, exact);
    lemma_term_order_of_three(hv, hv.term_at(ia), ia, hv.term_at(ib), ib, hv.term_at(ic), ic, exact);
    if spec_term_order(hv, hv.term_at(ia), ia, hv.term_at(ib), ib, exact) == 0 && spec_term_order(
        hv,
        hv.term_at(ib),
        ib,
        hv.term_at(ic),
        ic,
        exact,
    ) == 0 {
        lemma_term_order_trans(
            hv,
            hv.term_at(ia + 1),
            ia,
            hv.term_at(ib + 1),
            ib,
            hv.term_at(ic + 1),
            ic,
            exact,
        );
    }
}

} // verus!
