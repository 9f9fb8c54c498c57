//! Heap object which stores a binary: its header, its class, the number of
//! its bytes, its flavour, and then the bytes, eight to a word, the first in
//! the lowest bits.
use vstd::prelude::*;
use vstd::string::StringExecFns;
use crate::bits::{lemma_word_with_byte, spec_word_byte, spec_word_with_byte};
use crate::defs::Word;
use crate::emulator::heap::heapobj::{HeapObjClass, HeapObjHeader, HeapObjType};
use crate::emulator::heap::{spec_addr_index, spec_word_addr, Heap, HeapView, MAX_HEAP_WORDS};
use crate::fail::{Error, Hopefully};
use crate::term::boxed::box_header::{
    lemma_placed_box_arity, spec_header_word, spec_headerword_arity, BoxTypeTag,
};
use crate::term::classify::TermClass;
use crate::term::fmt::{push_decimal, spec_decimal_digits};
use crate::term::lterm::LTerm;

verus! {

#[derive(Clone, Copy, Debug, PartialEq, Eq, Structural)]
pub enum HOBinaryType {
    /// The bytes are stored in the heap, after the fixed fields.
    Heap,
}

/// Number of words of a binary before its bytes.
pub const HOBINARY_FIXED_WORDS: usize = 4;

/// Heap object `HOBinary` is placed on heap by the VM; these are its fixed
/// fields.
#[derive(Clone, Copy, Debug, PartialEq, Eq, Structural)]
pub struct HOBinary {
    pub hobj: HeapObjHeader,
    pub n_bytes: Word,
    pub flavour: HOBinaryType,
}

/// The class of all binaries.
pub open spec fn spec_hoclass_binary() -> HeapObjClass {
    HeapObjClass { obj_type: HeapObjType::Binary, term_class: TermClass::Binary }
}

/// The class of all binaries.
pub fn hoclass_binary() -> (c: HeapObjClass)
    ensures
        c == spec_hoclass_binary(),
{
    HeapObjClass { obj_type: HeapObjType::Binary, term_class: TermClass::Binary }
}

/// Number of words that a binary of `n_bytes` bytes takes: the fixed fields
/// and the bytes, rounded up to whole words.
pub open spec fn spec_hobinary_storage_size(n_bytes: nat) -> nat {
    HOBINARY_FIXED_WORDS as nat + (n_bytes + 7) / 8
}

impl HeapView {
    /// Whether `t` points to a binary: a boxed object of that type, long
    /// enough for its fixed fields and for the bytes that it says it has.
    pub open spec fn is_hobinary(self, t: LTerm) -> bool {
        &&& self.is_box_of_type(t, BoxTypeTag::Binary)
        &&& spec_headerword_arity(self.box_header(t)) + 1 >= HOBINARY_FIXED_WORDS
        &&& spec_hobinary_storage_size(self.hobinary_n_bytes(t) as nat) <= spec_headerword_arity(
            self.box_header(t),
        ) + 1
    }

    /// The number of bytes of the binary that `t` points to.
    pub open spec fn hobinary_n_bytes(self, t: LTerm) -> Word {
        self.data[spec_addr_index(t.value) as int + 2]
    }

    /// The byte `k` of the binary that `t` points to.
    pub open spec fn hobinary_byte(self, t: LTerm, k: nat) -> u8 {
        spec_word_byte(
            self.data[spec_addr_index(t.value) as int + HOBINARY_FIXED_WORDS as int + k as int / 8],
            (k % 8) as u64,
        )
    }
}

/// How a binary of `n_bytes` bytes is printed.
pub open spec fn spec_hobinary_str(n_bytes: Word) -> Seq<char> {
    "HeapBin("@ + spec_decimal_digits(n_bytes as nat) + " bytes)"@
}

impl HOBinary {
    /// Destructor: a binary whose bytes are in the heap holds nothing that
    /// has to be freed.
    pub fn dtor(hp: &mut Heap, this: LTerm)
        requires
            old(hp)@.is_hobinary(this),
        ensures
            final(hp)@ == old(hp)@,
    {
    }

    /// Format as a string.
    pub fn fmt_str(hp: &Heap, this: LTerm) -> (s: String)
        requires
            hp.wf(),
            hp@.is_hobinary(this),
        ensures
            s@ == spec_hobinary_str(hp@.hobinary_n_bytes(this)),
    {
        let idx: usize = hp.ptr_to_index(this.raw()).unwrap();
        let mut out = String::new();
        out.append("HeapBin(");
        push_decimal(&mut out, hp.get_word(idx + 2));
        out.append(" bytes)");
        assert(out@ =~= spec_hobinary_str(hp@.hobinary_n_bytes(this)));
        out
    }

    #[inline]
    pub fn storage_size(n_bytes: Word) -> (n: usize)
        requires
            n_bytes <= MAX_HEAP_WORDS * 8,
        ensures
            n == spec_hobinary_storage_size(n_bytes as nat),
    {
        // The fixed fields take four words of eight bytes
        ((32 + n_bytes + 8 - 1) / 8) as usize
    }

    /// Allocate space on heap for `n_bytes` and initialize the fields; the
    /// bytes keep what the memory held. A pointer to the binary is returned.
    /// Fails with a full heap, changing nothing, if the binary does not fit.
    pub fn place_into(hp: &mut Heap, n_bytes: Word) -> (r: Hopefully<Word>)
        requires
            old(hp).wf(),
        ensures
            final(hp).wf(),
            old(hp)@.has_available(spec_hobinary_storage_size(n_bytes as nat)) ==> {
                let top = old(hp)@.heap_top as int;
                &&& r == Ok::<Word, Error>(spec_word_addr(old(hp)@.heap_top))
                &&& final(hp)@.heap_top == top + spec_hobinary_storage_size(n_bytes as nat)
                &&& final(hp)@.stack_top == old(hp)@.stack_top
                &&& final(hp)@.data == old(hp)@.data.update(
                    top,
                    spec_header_word(
                        BoxTypeTag::Binary,
                        (spec_hobinary_storage_size(n_bytes as nat) - 1) as Word,
                    ),
                ).update(top + 1, spec_hoclass_binary().spec_code()).update(
                    top + 2,
                    n_bytes,
                ).update(top + 3, 0)
                &&& final(hp)@.is_hobinary(LTerm { value: r.unwrap() })
                &&& final(hp)@.hobinary_n_bytes(LTerm { value: r.unwrap() }) == n_bytes
            },
            !old(hp)@.has_available(spec_hobinary_storage_size(n_bytes as nat)) ==> r == Err::<
                Word,
                Error,
            >(Error::HeapIsFull) && final(hp)@ == old(hp)@,
    {
        if n_bytes > (MAX_HEAP_WORDS as Word) * 8 {
            return Err(Error::HeapIsFull);
        }
        let n_words: usize = HOBinary::storage_size(n_bytes);
        match hp.allocate(n_words, false) {
            Err(e) => Err(e),
            Ok(this) => {
                let idx: usize = hp.get_heap_top() - n_words;
                let record = HOBinary {
                    hobj: HeapObjHeader::new(n_words as Word, hoclass_binary()),
                    n_bytes,
                    flavour: HOBinaryType::Heap,
                };
                hp.set_word(idx, record.hobj.header_word);
                hp.set_word(idx + 1, record.hobj.class.code());
                hp.set_word(idx + 2, record.n_bytes);
                hp.set_word(idx + 3, 0);
                proof {
                    let w = record.hobj.header_word;
                    assert(w / 128 == n_words - 1);
                    assert((w / 8) % 16 == BoxTypeTag::Binary.code());
                    assert(spec_addr_index(this) == idx);
                }
                Ok(this)
            },
        }
    }

    #[inline]
    pub fn make_term(this: Word) -> (t: LTerm)
        requires
            this % 8 == 0,
        ensures
            t.value == this,
            t.spec_is_boxed(),
    {
        LTerm::make_boxed(this)
    }

    /// Given a byte array, copy it to the binary's memory: the first bytes
    /// of the binary become those of `data`, and nothing else changes.
    pub fn store(hp: &mut Heap, this: LTerm, data: &Vec<u8>)
        requires
            old(hp).wf(),
            old(hp)@.is_hobinary(this),
            data@.len() <= old(hp)@.hobinary_n_bytes(this),
        ensures
            final(hp).wf(),
            final(hp)@.heap_top == old(hp)@.heap_top,
            final(hp)@.stack_top == old(hp)@.stack_top,
            final(hp)@.data.len() == old(hp)@.data.len(),
            final(hp)@.is_hobinary(this),
            final(hp)@.hobinary_n_bytes(this) == old(hp)@.hobinary_n_bytes(this),
            forall|k: nat| k < data@.len() ==> final(hp)@.hobinary_byte(this, k) == data@[k as int],
            forall|k: nat|
                data@.len() <= k < old(hp)@.hobinary_n_bytes(this) ==> final(hp)@.hobinary_byte(
                    this,
                    k,
                ) == old(hp)@.hobinary_byte(this, k),
            forall|i: int|
                0 <= i < old(hp)@.data.len() && !(spec_addr_index(this.value)
                    + HOBINARY_FIXED_WORDS <= i < spec_addr_index(this.value)
                    + HOBINARY_FIXED_WORDS + (data@.len() + 7) / 8) ==> final(hp)@.data[i] == old(hp)@.data[i],
    {
        let data_len: usize = data.len();
        if data_len == 0 {
            return ;
        }
        let idx: usize = hp.ptr_to_index(this.raw()).unwrap();
        let base: usize = idx + HOBINARY_FIXED_WORDS;
        let mut k: usize = 0;
        while k < data_len
            invariant
                k <= data_len,
                data_len == data@.len(),
                hp.wf(),
                idx == spec_addr_index(this.value),
                base == idx + HOBINARY_FIXED_WORDS,
                base + (data_len + 7) / 8 <= hp@.heap_top,
                base + (old(hp)@.hobinary_n_bytes(this) + 7) / 8 <= hp@.heap_top,
                hp@.heap_top == old(hp)@.heap_top,
                hp@.stack_top == old(hp)@.stack_top,
                hp@.data.len() == old(hp)@.data.len(),
                forall|j: nat| j < k ==> hp@.hobinary_byte(this, j) == data@[j as int],
                forall|j: nat|
                    k <= j < old(hp)@.hobinary_n_bytes(this) ==> hp@.hobinary_byte(this, j) == old(hp)@.hobinary_byte(this, j),
                forall|i: int|
                    0 <= i < hp@.data.len() && !(base <= i < base + (data_len + 7) / 8)
                        ==> hp@.data[i] == old(hp)@.data[i],
            decreases data_len - k,
        {
            let wi: usize = base + k / 8;
            let j: Word = (k % 8) as Word;
            let w: Word = hp.get_word(wi);
            let b: u8 = data[k];
            let ghost before = hp@;
            let neww: Word = (w & !(0xffu64 << (8 * j))) | ((b as u64) << (8 * j));
            hp.set_word(wi, neww);
            proof {
                assert(neww == spec_word_with_byte(w, j, b));
                assert forall|m: nat| m < k + 1 implies hp@.hobinary_byte(this, m) == data@[m as int] by {
                    if m < k {
                        assert(before.hobinary_byte(this, m) == data@[m as int]);
                    }
                    if m / 8 == k / 8 {
                        lemma_word_with_byte(w, j, b, (m % 8) as u64);
                    }
                }
                assert forall|m: nat|
                    k + 1 <= m < old(hp)@.hobinary_n_bytes(this) implies hp@.hobinary_byte(this, m)
                    == old(hp)@.hobinary_byte(this, m) by {
                    assert(before.hobinary_byte(this, m) == old(hp)@.hobinary_byte(this, m));
                    if m / 8 == k / 8 {
                        lemma_word_with_byte(w, j, b, (m % 8) as u64);
                    }
                }
            }
            k = k + 1;
        }
    }
}

} // verus!
