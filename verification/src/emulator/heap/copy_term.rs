//! Copying a term with all that it points to from one heap into another.
//!
//! Heaps are never shared, so a message is copied into the heap of the
//! process that receives it. What a term is worth is told by `spec_value`:
//! the word itself for a term that points nowhere, and for a pointer what it
//! points to, part by part. A copy is worth what the term that it was made
//! from is worth, in another place.
use vstd::prelude::*;
use crate::defs::Word;
use crate::emulator::heap::{spec_addr_index, Heap, HeapView};
use crate::fail::{Error, RtResult};
use crate::term::boxed::box_header::{
    headerword_to_arity, headerword_to_boxtype, spec_headerword_arity, spec_headerword_boxtype,
    BoxTypeTag,
};
use crate::term::lterm::LTerm;

verus! {

/// What a term is worth, whatever the heap and the place where it is kept.
pub enum TermValue {
    /// A term that points nowhere: its word.
    Immediate(Word),
    /// A list cell: its head and its tail.
    Cell(Box<TermValue>, Box<TermValue>),
    /// A boxed object: its header, the words that are plain data, and the
    /// words that are terms.
    Object(Word, Seq<Word>, Seq<TermValue>),
}

/// Number of the words after the header word `w` that are plain data and not
/// terms: none in a tuple, the six fixed fields in a closure, all in any
/// other object.
pub open spec fn spec_raw_words(w: Word) -> nat {
    let a = spec_headerword_arity(w) as nat;
    match spec_headerword_boxtype(w) {
        Some(BoxTypeTag::Tuple) => 0,
        Some(BoxTypeTag::Closure) => if a < 6 {
            a
        } else {
            6
        },
        _ => a,
    }
}

/// Whether the term is a boxed term that is meant to point into the heap:
/// not a continuation pointer and not the non-value.
pub open spec fn spec_is_box_pointer(t: LTerm) -> bool {
    t.spec_is_boxed() && !t.spec_is_cp() && !t.spec_is_non_value()
}

/// Whether everything that can be reached from `t` is there: each pointer
/// points to an object or a cell that lies below the place where the pointer
/// is kept.
pub open spec fn spec_closed(hv: HeapView, t: LTerm, bound: nat) -> bool
    decreases bound, 2nat, 0nat,
{
    if spec_is_box_pointer(t) {
        hv.is_box_below(t, bound) && spec_closed_from(
            hv,
            spec_addr_index(t.value),
            spec_raw_words(hv.box_header(t)),
            spec_headerword_arity(hv.box_header(t)) as nat,
        )
    } else if t.spec_is_cons() {
        hv.is_cons_below(t, bound) && spec_closed(hv, hv.cons_hd(t), hv.cons_index(t))
            && spec_closed(hv, hv.cons_tl(t), hv.cons_index(t))
    } else {
        true
    }
}

/// Whether the words from `k` up to `a` after the header at index `i` are
/// closed terms.
pub open spec fn spec_closed_from(hv: HeapView, i: nat, k: nat, a: nat) -> bool
    decreases i + 1, 0nat, a - k,
{
    if k >= a {
        true
    } else {
        spec_closed(hv, hv.term_at(i + 1 + k), i) && spec_closed_from(hv, i, k + 1, a)
    }
}

/// Number of words that a copy of `t` takes.
pub open spec fn spec_copy_size(hv: HeapView, t: LTerm, bound: nat) -> nat
    decreases bound, 2nat, 0nat,
{
    if spec_is_box_pointer(t) {
        if hv.is_box_below(t, bound) {
            1 + spec_headerword_arity(hv.box_header(t)) as nat + spec_copy_size_from(
                hv,
                spec_addr_index(t.value),
                spec_raw_words(hv.box_header(t)),
                spec_headerword_arity(hv.box_header(t)) as nat,
            )
        } else {
            0
        }
    } else if t.spec_is_cons() {
        if hv.is_cons_below(t, bound) {
            2 + spec_copy_size(hv, hv.cons_hd(t), hv.cons_index(t)) + spec_copy_size(
                hv,
                hv.cons_tl(t),
                hv.cons_index(t),
            )
        } else {
            0
        }
    } else {
        0
    }
}

/// Number of words that the copies take of what the words from `k` up to `a`
/// after the header at index `i` point to.
pub open spec fn spec_copy_size_from(hv: HeapView, i: nat, k: nat, a: nat) -> nat
    decreases i + 1, 0nat, a - k,
{
    if k >= a {
        0
    } else {
        spec_copy_size(hv, hv.term_at(i + 1 + k), i) + spec_copy_size_from(hv, i, k + 1, a)
    }
}

/// What the term `t` is worth, where `t` is kept at the word `bound` of the
/// heap (or outside of the heap, and `bound` is the heap top).
pub open spec fn spec_value(hv: HeapView, t: LTerm, bound: nat) -> TermValue
    decreases bound, 2nat, 0nat,
{
    if spec_is_box_pointer(t) && hv.is_box_below(t, bound) {
        let i = spec_addr_index(t.value);
        let w = hv.box_header(t);
        TermValue::Object(
            w,
            hv.words(i + 1, i + 1 + spec_raw_words(w)),
            spec_values_from(hv, i, spec_raw_words(w), spec_headerword_arity(w) as nat),
        )
    } else if t.spec_is_cons() && hv.is_cons_below(t, bound) {
        TermValue::Cell(
            Box::new(spec_value(hv, hv.cons_hd(t), hv.cons_index(t))),
            Box::new(spec_value(hv, hv.cons_tl(t), hv.cons_index(t))),
        )
    } else {
        TermValue::Immediate(t.value)
    }
}

/// What the words from `k` up to `a` after the header at index `i` are worth.
pub open spec fn spec_values_from(hv: HeapView, i: nat, k: nat, a: nat) -> Seq<TermValue>
    decreases i + 1, 0nat, a - k,
{
    if k >= a {
        Seq::<TermValue>::empty()
    } else {
        seq![spec_value(hv, hv.term_at(i + 1 + k), i)] + spec_values_from(hv, i, k + 1, a)
    }
}

/// Whether two heaps hold the same first `n` words, all of them in their
/// heap regions.
pub open spec fn spec_same_below(h1: HeapView, h2: HeapView, n: nat) -> bool {
    &&& n <= h1.heap_top <= h1.data.len()
    &&& n <= h2.heap_top <= h2.data.len()
    &&& forall|i: int| 0 <= i < n ==> h1.data[i] == h2.data[i]
}

/// What a term is worth depends only on the words below the place where it
/// is kept: in two heaps that hold the same first `n` words, a term kept at
/// or below `n` is closed in both or in neither, takes the same number of
/// words to copy, and is worth the same.
pub proof fn lemma_value_depends_on_words_below(
    h1: HeapView,
    h2: HeapView,
    n: nat,
    t: LTerm,
    bound: nat,
)
    requires
        spec_same_below(h1, h2, n),
        bound <= n,
    ensures
        spec_closed(h1, t, bound) == spec_closed(h2, t, bound),
        spec_copy_size(h1, t, bound) == spec_copy_size(h2, t, bound),
        spec_value(h1, t, bound) == spec_value(h2, t, bound),
        h1.is_box_below(t, bound) == h2.is_box_below(t, bound),
        h1.is_cons_below(t, bound) == h2.is_cons_below(t, bound),
    decreases bound, 2nat, 0nat,
{
    if spec_is_box_pointer(t) {
        if h1.is_box_below(t, bound) || h2.is_box_below(t, bound) {
            let i = spec_addr_index(t.value);
            assert(i < bound);
            assert(h1.data[i as int] == h2.data[i as int]);
            let w = h1.box_header(t);
            let a = spec_headerword_arity(w) as nat;
            lemma_values_depend_on_words_below(h1, h2, n, i, spec_raw_words(w), a);
            assert(h1.words(i + 1, i + 1 + spec_raw_words(w)) =~= h2.words(
                i + 1,
                i + 1 + spec_raw_words(w),
            ));
        }
    } else if t.spec_is_cons() {
        if h1.is_cons_below(t, bound) || h2.is_cons_below(t, bound) {
            let i = h1.cons_index(t);
            assert(h1.data[i as int] == h2.data[i as int]);
            assert(h1.term_at(i + 1) == h2.term_at(i + 1));
            lemma_value_depends_on_words_below(h1, h2, n, h1.cons_hd(t), i);
            lemma_value_depends_on_words_below(h1, h2, n, h1.cons_tl(t), i);
        }
    }
}

/// The same for the words of one object.
pub proof fn lemma_values_depend_on_words_below(
    h1: HeapView,
    h2: HeapView,
    n: nat,
    i: nat,
    k: nat,
    a: nat,
)
    requires
        spec_same_below(h1, h2, n),
        i + 1 + a <= n,
        k <= a,
    ensures
        spec_closed_from(h1, i, k, a) == spec_closed_from(h2, i, k, a),
        spec_copy_size_from(h1, i, k, a) == spec_copy_size_from(h2, i, k, a),
        spec_values_from(h1, i, k, a) == spec_values_from(h2, i, k, a),
    decreases i + 1, 0nat, a - k,
{
    if k < a {
        assert(h1.term_at(i + 1 + k) == h2.term_at(i + 1 + k));
        lemma_value_depends_on_words_below(h1, h2, n, h1.term_at(i + 1 + k), i);
        lemma_values_depend_on_words_below(h1, h2, n, i, k + 1, a);
    }
}

/// A closed term is worth the same wherever it is kept above what it points
/// to.
pub proof fn lemma_value_of_closed_term(hv: HeapView, t: LTerm, b1: nat, b2: nat)
    requires
        b1 <= b2 <= hv.heap_top <= hv.data.len(),
        spec_closed(hv, t, b1),
    ensures
        spec_closed(hv, t, b2),
        spec_copy_size(hv, t, b2) == spec_copy_size(hv, t, b1),
        spec_value(hv, t, b2) == spec_value(hv, t, b1),
{
}

/// A copy stays what it is when the heap grows: a term that is closed in a
/// heap is closed in every heap that holds the same words up to the heap top
/// of the first, and is worth the same there.
pub proof fn lemma_value_in_grown_heap(h1: HeapView, h2: HeapView, t: LTerm)
    requires
        spec_same_below(h1, h2, h1.heap_top),
        spec_closed(h1, t, h1.heap_top),
    ensures
        spec_closed(h2, t, h2.heap_top),
        spec_value(h2, t, h2.heap_top) == spec_value(h1, t, h1.heap_top),
{
    lemma_value_depends_on_words_below(h1, h2, h1.heap_top, t, h1.heap_top);
    lemma_value_of_closed_term(h2, t, h1.heap_top, h2.heap_top);
}

/// Two objects whose term words are worth the same, word by word, hold the
/// same values.
pub proof fn lemma_values_from_words(
    ha: HeapView,
    ia: nat,
    hb: HeapView,
    ib: nat,
    k: nat,
    a: nat,
)
    requires
        k <= a,
        forall|j: nat|
            k <= j < a ==> spec_closed(ha, #[trigger] ha.term_at(ia + 1 + j), ia) && spec_value(
                ha,
                ha.term_at(ia + 1 + j),
                ia,
            ) == spec_value(hb, hb.term_at(ib + 1 + j), ib),
    ensures
        spec_closed_from(ha, ia, k, a),
        spec_values_from(ha, ia, k, a) == spec_values_from(hb, ib, k, a),
    decreases a - k,
{
    if k < a {
        assert(spec_closed(ha, ha.term_at(ia + 1 + k), ia));
        lemma_values_from_words(ha, ia, hb, ib, k + 1, a);
    }
}

/// Number of the words after the header word `w` that are plain data.
fn raw_words(w: Word) -> (r: Word)
    ensures
        r == spec_raw_words(w),
        r <= spec_headerword_arity(w),
{
    let a: Word = headerword_to_arity(w);
    match headerword_to_boxtype(w) {
        Some(BoxTypeTag::Tuple) => 0,
        Some(BoxTypeTag::Closure) => if a < 6 {
            a
        } else {
            6
        },
        _ => a,
    }
}

/// Whether everything that can be reached from `t` is there. A list is
/// followed cell by cell.
pub fn is_closed(src: &Heap, t: LTerm, bound: usize) -> (b: bool)
    requires
        src.wf(),
        bound <= src@.heap_top,
    ensures
        b == spec_closed(src@, t, bound as nat),
    decreases bound, 2nat, 0nat,
{
    let mut cur: LTerm = t;
    let mut at: usize = bound;
    loop
        invariant
            src.wf(),
            at <= bound <= src@.heap_top,
            spec_closed(src@, cur, at as nat) == spec_closed(src@, t, bound as nat),
        decreases at,
    {
        if !cur.is_cons() {
            return is_closed_object(src, cur, at);
        }
        match src.find_cons(cur, at) {
            None => {
                return false;
            },
            Some(i) => {
                let cell = src.read_cons(i);
                if !is_closed(src, cell.hd(), i) {
                    return false;
                }
                cur = cell.tl();
                at = i;
            },
        }
    }
}

/// Whether everything that can be reached from `t`, which is no list cell,
/// is there.
fn is_closed_object(src: &Heap, t: LTerm, bound: usize) -> (b: bool)
    requires
        src.wf(),
        bound <= src@.heap_top,
        !t.spec_is_cons(),
    ensures
        b == spec_closed(src@, t, bound as nat),
    decreases bound, 1nat, 0nat,
{
    if t.is_boxed() && !t.is_cp() && !t.is_non_value() {
        match src.find_box(t, bound) {
            None => false,
            Some(found) => {
                let i: usize = found.0;
                let a: usize = found.1.get_arity() as usize;
                let r: usize = raw_words(found.1.header_word) as usize;
                let mut k: usize = r;
                while k < a
                    invariant
                        src.wf(),
                        r <= k <= a,
                        i + 1 + a <= bound <= src@.heap_top,
                        spec_is_box_pointer(t),
                        src@.is_box_below(t, bound as nat),
                        i == spec_addr_index(t.value),
                        a == spec_headerword_arity(src@.box_header(t)),
                        r == spec_raw_words(src@.box_header(t)),
                        spec_closed_from(src@, i as nat, k as nat, a as nat) == spec_closed_from(
                            src@,
                            i as nat,
                            r as nat,
                            a as nat,
                        ),
                    decreases a - k,
                {
                    if !is_closed(src, src.get_term(i + 1 + k), i) {
                        return false;
                    }
                    k = k + 1;
                }
                true
            },
        }
    } else {
        true
    }
}

/// Number of words that a copy of the closed term `t` takes, if that is
/// `budget` at most. A list is followed cell by cell.
pub fn copy_size(src: &Heap, t: LTerm, bound: usize, budget: usize) -> (r: Option<usize>)
    requires
        src.wf(),
        bound <= src@.heap_top,
        spec_closed(src@, t, bound as nat),
    ensures
        spec_copy_size(src@, t, bound as nat) <= budget ==> r == Some(
            spec_copy_size(src@, t, bound as nat) as usize,
        ),
        spec_copy_size(src@, t, bound as nat) > budget ==> r.is_none(),
    decreases bound, 2nat, 0nat,
{
    let mut cur: LTerm = t;
    let mut at: usize = bound;
    let mut total: usize = 0;
    loop
        invariant
            src.wf(),
            at <= bound <= src@.heap_top,
            spec_closed(src@, cur, at as nat),
            total <= budget,
            total + spec_copy_size(src@, cur, at as nat) == spec_copy_size(src@, t, bound as nat),
        decreases at,
    {
        if !cur.is_cons() {
            return match copy_size_object(src, cur, at, budget - total) {
                None => None,
                Some(n) => Some(total + n),
            };
        }
        let i: usize = src.find_cons(cur, at).unwrap();
        let cell = src.read_cons(i);
        if budget - total < 2 {
            return None;
        }
        match copy_size(src, cell.hd(), i, budget - total - 2) {
            None => {
                return None;
            },
            Some(n) => {
                total = total + 2 + n;
            },
        }
        cur = cell.tl();
        at = i;
    }
}

/// Number of words that a copy of the closed term `t` takes, which is no
/// list cell, if that is `budget` at most.
fn copy_size_object(src: &Heap, t: LTerm, bound: usize, budget: usize) -> (r: Option<usize>)
    requires
        src.wf(),
        bound <= src@.heap_top,
        spec_closed(src@, t, bound as nat),
        !t.spec_is_cons(),
    ensures
        spec_copy_size(src@, t, bound as nat) <= budget ==> r == Some(
            spec_copy_size(src@, t, bound as nat) as usize,
        ),
        spec_copy_size(src@, t, bound as nat) > budget ==> r.is_none(),
    decreases bound, 1nat, 0nat,
{
    if t.is_boxed() && !t.is_cp() && !t.is_non_value() {
        let found = src.find_box(t, bound).unwrap();
        let i: usize = found.0;
        let a: usize = found.1.get_arity() as usize;
        let r: usize = raw_words(found.1.header_word) as usize;
        if a >= budget {
            return None;
        }
        let mut total: usize = 1 + a;
        let mut k: usize = r;
        while k < a
            invariant
                src.wf(),
                r <= k <= a,
                i + 1 + a <= bound <= src@.heap_top,
                spec_is_box_pointer(t),
                src@.is_box_below(t, bound as nat),
                i == spec_addr_index(t.value),
                a == spec_headerword_arity(src@.box_header(t)),
                r == spec_raw_words(src@.box_header(t)),
                spec_closed_from(src@, i as nat, k as nat, a as nat),
                total <= budget,
                total + spec_copy_size_from(src@, i as nat, k as nat, a as nat) == 1 + a
                    + spec_copy_size_from(src@, i as nat, r as nat, a as nat),
            decreases a - k,
        {
            match copy_size(src, src.get_term(i + 1 + k), i, budget - total) {
                None => {
                    return None;
                },
                Some(n) => {
                    total = total + n;
                },
            }
            k = k + 1;
        }
        Some(total)
    } else {
        Some(0)
    }
}

/// Whether the cell `j` of a list that is being copied is a cell of the
/// heap below the place where its term is kept, and the next term of the
/// list is its tail.
pub open spec fn spec_spine_cell(src: HeapView, spine: Seq<(LTerm, nat)>, j: int) -> bool {
    &&& spine[j].0.spec_is_cons()
    &&& src.is_cons_below(spine[j].0, spine[j].1)
    &&& spine[j + 1] == (src.cons_tl(spine[j].0), src.cons_index(spine[j].0))
}

/// Whether the copy `j` of `heads` is worth in `dst` what the head of the
/// cell `j` of the list is worth in `src`.
pub open spec fn spec_head_copied(
    src: HeapView,
    dst: HeapView,
    spine: Seq<(LTerm, nat)>,
    heads: Seq<LTerm>,
    j: int,
) -> bool {
    &&& spec_closed(dst, heads[j], dst.heap_top)
    &&& spec_value(dst, heads[j], dst.heap_top) == spec_value(
        src,
        src.cons_hd(spine[j].0),
        src.cons_index(spine[j].0),
    )
}

/// Copies the closed term `t` with all that it points to into a heap that
/// has the words for it free, and returns the term that stands for the copy.
/// Of a list the heads are copied first, cell by cell, then what the list
/// ends with, and then the cells are made from the last to the first, so that
/// each cell lies above what it points to.
pub fn copy_unchecked(src: &Heap, t: LTerm, bound: usize, dst: &mut Heap) -> (r: LTerm)
    requires
        src.wf(),
        bound <= src@.heap_top,
        spec_closed(src@, t, bound as nat),
        old(dst).wf(),
        old(dst)@.has_available(spec_copy_size(src@, t, bound as nat)),
    ensures
        final(dst).wf(),
        final(dst)@.heap_top == old(dst)@.heap_top + spec_copy_size(src@, t, bound as nat),
        final(dst)@.stack_top == old(dst)@.stack_top,
        final(dst)@.data.len() == old(dst)@.data.len(),
        forall|x: int|
            0 <= x < old(dst)@.data.len() && !(old(dst)@.heap_top <= x < final(dst)@.heap_top)
                ==> final(dst)@.data[x] == old(dst)@.data[x],
        spec_closed(final(dst)@, r, final(dst)@.heap_top),
        spec_value(final(dst)@, r, final(dst)@.heap_top) == spec_value(src@, t, bound as nat),
    decreases bound, 2nat, 0nat,
{
    let mut heads: Vec<LTerm> = Vec::new();
    let ghost mut spine: Seq<(LTerm, nat)> = seq![(t, bound as nat)];
    let mut cur: LTerm = t;
    let mut at: usize = bound;
    while cur.is_cons()
        invariant
            src.wf(),
            dst.wf(),
            at <= bound <= src@.heap_top,
            spec_closed(src@, cur, at as nat),
            spine.len() == heads@.len() + 1,
            spine[0] == (t, bound as nat),
            spine.last() == (cur, at as nat),
            forall|j: int| 0 <= j < heads@.len() ==> #[trigger] spec_spine_cell(src@, spine, j),
            forall|j: int|
                0 <= j < heads@.len() ==> #[trigger] spec_head_copied(
                    src@,
                    dst@,
                    spine,
                    heads@,
                    j,
                ),
            dst@.stack_top == old(dst)@.stack_top,
            dst@.data.len() == old(dst)@.data.len(),
            old(dst)@.heap_top <= dst@.heap_top,
            forall|x: int|
                0 <= x < old(dst)@.data.len() && !(old(dst)@.heap_top <= x < dst@.heap_top)
                    ==> dst@.data[x] == old(dst)@.data[x],
            dst@.heap_top + 2 * heads@.len() + spec_copy_size(src@, cur, at as nat) == old(dst)@.heap_top + spec_copy_size(src@, t, bound as nat),
            old(dst)@.heap_top + spec_copy_size(src@, t, bound as nat) <= old(dst)@.stack_top,
        decreases at,
    {
        let i: usize = src.find_cons(cur, at).unwrap();
        let cell = src.read_cons(i);
        let ghost d1 = dst@;
        let ghost heads1 = heads@;
        let ghost spine1 = spine;
        let hd_copy = copy_unchecked(src, cell.hd(), i, dst);
        heads.push(hd_copy);
        proof {
            spine = spine.push((cell.tail, i as nat));
            assert(spec_same_below(d1, dst@, d1.heap_top));
            assert forall|j: int| 0 <= j < heads@.len() implies #[trigger] spec_spine_cell(
                src@,
                spine,
                j,
            ) by {
                if j < heads1.len() {
                    assert(spec_spine_cell(src@, spine1, j));
                }
            }
            assert forall|j: int| 0 <= j < heads@.len() implies #[trigger] spec_head_copied(
                src@,
                dst@,
                spine,
                heads@,
                j,
            ) by {
                if j < heads1.len() {
                    assert(spec_head_copied(src@, d1, spine1, heads1, j));
                    lemma_value_in_grown_heap(d1, dst@, heads1[j]);
                }
            }
        }
        cur = cell.tl();
        at = i;
    }
    let ghost d1 = dst@;
    let mut acc: LTerm = copy_object_unchecked(src, cur, at, dst);
    proof {
        assert(spec_same_below(d1, dst@, d1.heap_top));
        assert forall|j: int| 0 <= j < heads@.len() implies #[trigger] spec_head_copied(
            src@,
            dst@,
            spine,
            heads@,
            j,
        ) by {
            assert(spec_head_copied(src@, d1, spine, heads@, j));
            lemma_value_in_grown_heap(d1, dst@, heads@[j]);
        }
    }
    let mut n: usize = heads.len();
    while n > 0
        invariant
            src.wf(),
            dst.wf(),
            n <= heads@.len(),
            spine.len() == heads@.len() + 1,
            spine[0] == (t, bound as nat),
            forall|j: int| 0 <= j < heads@.len() ==> #[trigger] spec_spine_cell(src@, spine, j),
            forall|j: int|
                0 <= j < n ==> #[trigger] spec_head_copied(src@, dst@, spine, heads@, j),
            spec_closed(dst@, acc, dst@.heap_top),
            spec_value(dst@, acc, dst@.heap_top) == spec_value(
                src@,
                spine[n as int].0,
                spine[n as int].1,
            ),
            dst@.stack_top == old(dst)@.stack_top,
            dst@.data.len() == old(dst)@.data.len(),
            old(dst)@.heap_top <= dst@.heap_top,
            forall|x: int|
                0 <= x < old(dst)@.data.len() && !(old(dst)@.heap_top <= x < dst@.heap_top)
                    ==> dst@.data[x] == old(dst)@.data[x],
            dst@.heap_top + 2 * n == old(dst)@.heap_top + spec_copy_size(src@, t, bound as nat),
            old(dst)@.heap_top + spec_copy_size(src@, t, bound as nat) <= old(dst)@.stack_top,
        decreases n,
    {
        n = n - 1;
        let ghost d2 = dst@;
        let hd_copy: LTerm = heads[n];
        let mut image: Vec<Word> = Vec::new();
        image.push(hd_copy.raw());
        image.push(acc.raw());
        let placed = dst.place_words(&image);
        let p: Word = placed.unwrap();
        let cell_copy = LTerm::make_cons(p);
        proof {
            let n0 = d2.heap_top;
            let fin = dst@;
            assert(spec_spine_cell(src@, spine, n as int));
            assert(spec_head_copied(src@, d2, spine, heads@, n as int));
            assert(spec_same_below(d2, fin, n0));
            lemma_value_depends_on_words_below(d2, fin, n0, hd_copy, n0);
            lemma_value_depends_on_words_below(d2, fin, n0, acc, n0);
            assert(fin.cons_index(cell_copy) == n0);
            assert(fin.cons_hd(cell_copy) == hd_copy);
            assert(fin.cons_tl(cell_copy) == acc);
            assert(fin.is_cons_below(cell_copy, fin.heap_top));
            assert forall|j: int| 0 <= j < n implies #[trigger] spec_head_copied(
                src@,
                fin,
                spine,
                heads@,
                j,
            ) by {
                assert(spec_head_copied(src@, d2, spine, heads@, j));
                lemma_value_in_grown_heap(d2, fin, heads@[j]);
            }
        }
        acc = cell_copy;
    }
    acc
}

/// Copies the closed term `t`, which is no list cell, with all that it
/// points to into a heap that has the words for it free, and returns the
/// term that stands for the copy.
fn copy_object_unchecked(src: &Heap, t: LTerm, bound: usize, dst: &mut Heap) -> (r: LTerm)
    requires
        src.wf(),
        bound <= src@.heap_top,
        spec_closed(src@, t, bound as nat),
        !t.spec_is_cons(),
        old(dst).wf(),
        old(dst)@.has_available(spec_copy_size(src@, t, bound as nat)),
    ensures
        final(dst).wf(),
        final(dst)@.heap_top == old(dst)@.heap_top + spec_copy_size(src@, t, bound as nat),
        final(dst)@.stack_top == old(dst)@.stack_top,
        final(dst)@.data.len() == old(dst)@.data.len(),
        forall|x: int|
            0 <= x < old(dst)@.data.len() && !(old(dst)@.heap_top <= x < final(dst)@.heap_top)
                ==> final(dst)@.data[x] == old(dst)@.data[x],
        spec_closed(final(dst)@, r, final(dst)@.heap_top),
        spec_value(final(dst)@, r, final(dst)@.heap_top) == spec_value(src@, t, bound as nat),
    decreases bound, 1nat, 0nat,
{
    if t.is_boxed() && !t.is_cp() && !t.is_non_value() {
        let found = src.find_box(t, bound).unwrap();
        let i: usize = found.0;
        let w: Word = found.1.header_word;
        let a: usize = found.1.get_arity() as usize;
        let r: usize = raw_words(w) as usize;
        let mut image: Vec<Word> = Vec::new();
        image.push(w);
        let mut k: usize = 0;
        while k < r
            invariant
                src.wf(),
                k <= r <= a,
                i + 1 + a <= bound <= src@.heap_top,
                image@.len() == 1 + k,
                image@[0] == w,
                image@.subrange(1, 1 + k) == src@.words((i + 1) as nat, (i + 1 + k) as nat),
            decreases r - k,
        {
            image.push(src.get_word(i + 1 + k));
            assert(image@.subrange(1, 2 + k) =~= src@.words(
                (i + 1) as nat,
                (i + 2 + k) as nat,
            ));
            k = k + 1;
        }
        while k < a
            invariant
                src.wf(),
                dst.wf(),
                r <= k <= a,
                i + 1 + a <= bound <= src@.heap_top,
                w == src@.data[i as int],
                a == spec_headerword_arity(w),
                r == spec_raw_words(w),
                spec_closed_from(src@, i as nat, k as nat, a as nat),
                image@.len() == 1 + k,
                image@[0] == w,
                image@.subrange(1, 1 + r) == src@.words((i + 1) as nat, (i + 1 + r) as nat),
                dst@.stack_top == old(dst)@.stack_top,
                dst@.data.len() == old(dst)@.data.len(),
                old(dst)@.heap_top <= dst@.heap_top,
                forall|x: int|
                    0 <= x < old(dst)@.data.len() && !(old(dst)@.heap_top <= x < dst@.heap_top)
                        ==> dst@.data[x] == old(dst)@.data[x],
                dst@.heap_top + 1 + a + spec_copy_size_from(src@, i as nat, k as nat, a as nat)
                    == old(dst)@.heap_top + 1 + a + spec_copy_size_from(
                    src@,
                    i as nat,
                    r as nat,
                    a as nat,
                ),
                old(dst)@.heap_top + 1 + a + spec_copy_size_from(src@, i as nat, r as nat, a as nat)
                    <= old(dst)@.stack_top,
                forall|j: int|
                    r <= j < k ==> spec_closed(
                        dst@,
                        LTerm { value: #[trigger] image@[1 + j] },
                        dst@.heap_top,
                    ) && spec_value(dst@, LTerm { value: image@[1 + j] }, dst@.heap_top)
                        == spec_value(src@, src@.term_at((i + 1 + j) as nat), i as nat),
            decreases a - k,
        {
            let child = src.get_term(i + 1 + k);
            let ghost d1 = dst@;
            let copy = copy_unchecked(src, child, i, dst);
            proof {
                assert(spec_same_below(d1, dst@, d1.heap_top));
                assert forall|j: int| r <= j < k implies spec_closed(
                    dst@,
                    LTerm { value: #[trigger] image@[1 + j] },
                    dst@.heap_top,
                ) && spec_value(dst@, LTerm { value: image@[1 + j] }, dst@.heap_top) == spec_value(
                    src@,
                    src@.term_at((i + 1 + j) as nat),
                    i as nat,
                ) by {
                    lemma_value_in_grown_heap(d1, dst@, LTerm { value: image@[1 + j] });
                }
            }
            let ghost before = image@;
            image.push(copy.raw());
            assert(image@.subrange(1, 1 + r) =~= before.subrange(1, 1 + r));
            k = k + 1;
        }
        let ghost d2 = dst@;
        let placed = dst.place_words(&image);
        let p: Word = placed.unwrap();
        let result = LTerm::make_boxed(p);
        proof {
            let n0 = d2.heap_top;
            let fin = dst@;
            assert(spec_addr_index(p) == n0);
            assert(fin.data[n0 as int] == w);
            assert(fin.is_box_below(result, fin.heap_top));
            assert(spec_same_below(d2, fin, n0));
            assert forall|j: nat| r <= j < a implies spec_closed(
                fin,
                #[trigger] fin.term_at(n0 + 1 + j),
                n0,
            ) && spec_value(fin, fin.term_at(n0 + 1 + j), n0) == spec_value(
                src@,
                src@.term_at(i as nat + 1 + j),
                i as nat,
            ) by {
                assert(fin.term_at(n0 + 1 + j) == LTerm { value: image@[1 + j as int] });
                lemma_value_depends_on_words_below(
                    d2,
                    fin,
                    n0,
                    LTerm { value: image@[1 + j as int] },
                    n0,
                );
            }
            lemma_values_from_words(fin, n0, src@, i as nat, r as nat, a as nat);
            assert(fin.words(n0 + 1, n0 + 1 + r as nat) =~= image@.subrange(1, 1 + r));
        }
        result
    } else {
        t
    }
}

/// Copies the term `term` of the heap `src` with all that it points to into
/// the heap `dst`, and returns the term that stands for the copy there. The
/// copy is worth what `term` is worth. Fails, changing nothing, if a pointer
/// in `term` or below it points to nothing, or if `dst` has not the words
/// for the copy.
pub fn copy_to(term: LTerm, src: &Heap, dst: &mut Heap) -> (r: RtResult<LTerm>)
    requires
        src.wf(),
        old(dst).wf(),
    ensures
        final(dst).wf(),
        !spec_closed(src@, term, src@.heap_top) ==> r == Err::<LTerm, Error>(
            Error::TermIsNotABoxed,
        ) && final(dst)@ == old(dst)@,
        spec_closed(src@, term, src@.heap_top) && !old(dst)@.has_available(
            spec_copy_size(src@, term, src@.heap_top),
        ) ==> r == Err::<LTerm, Error>(Error::HeapIsFull) && final(dst)@ == old(dst)@,
        spec_closed(src@, term, src@.heap_top) && old(dst)@.has_available(
            spec_copy_size(src@, term, src@.heap_top),
        ) ==> {
            &&& r.is_ok()
            &&& spec_closed(final(dst)@, r.unwrap(), final(dst)@.heap_top)
            &&& spec_value(final(dst)@, r.unwrap(), final(dst)@.heap_top) == spec_value(
                src@,
                term,
                src@.heap_top,
            )
            &&& final(dst)@.heap_top == old(dst)@.heap_top + spec_copy_size(
                src@,
                term,
                src@.heap_top,
            )
            &&& final(dst)@.stack_top == old(dst)@.stack_top
            &&& final(dst)@.data.len() == old(dst)@.data.len()
            &&& forall|x: int|
                0 <= x < old(dst)@.data.len() && !(old(dst)@.heap_top <= x < final(dst)@.heap_top)
                    ==> final(dst)@.data[x] == old(dst)@.data[x]
        },
{
    let top: usize = src.get_heap_top();
    if !is_closed(src, term, top) {
        return Err(Error::TermIsNotABoxed);
    }
    match copy_size(src, term, top, dst.get_heap_available()) {
        None => Err(Error::HeapIsFull),
        Some(_) => Ok(copy_unchecked(src, term, top, dst)),
    }
}

} // verus!
