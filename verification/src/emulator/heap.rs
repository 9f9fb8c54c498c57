//! The memory of one process: a single array of words that holds the heap,
//! growing up from the bottom, and the stack, growing down from the top.
use vstd::prelude::*;
use crate::defs::Word;
use crate::fail::{Error, RtResult};
use crate::term::lterm::LTerm;

pub mod copy_term;
pub mod heapobj;
pub mod ho_binary;

verus! {

/// Default heap size in words when a process is spawned.
pub const DEFAULT_PROC_HEAP: usize = 8192;

/// The most words that one heap can have.
pub const MAX_HEAP_WORDS: usize = 0x4000_0000;

/// The address of the word with index `idx`. Words are eight bytes apart, and
/// the first one lies at address eight, so that no word has the address zero.
pub open spec fn spec_word_addr(idx: nat) -> Word {
    ((idx + 1) * 8) as Word
}

/// Whether `p` is the address of a word with an index below `limit`.
pub open spec fn spec_addr_valid(p: Word, limit: nat) -> bool {
    p % 8 == 0 && p >= 8 && p / 8 - 1 < limit
}

/// The index of the word at address `p`.
pub open spec fn spec_addr_index(p: Word) -> nat {
    (p / 8 - 1) as nat
}

/// `data` with the `n` words from `from` on set to zero.
pub open spec fn spec_zeroed(data: Seq<Word>, from: nat, n: nat) -> Seq<Word> {
    Seq::new(data.len(), |i: int| if from <= i < from + n { 0u64 } else { data[i] })
}

/// `data` with the words from `at` on replaced by `words`.
pub open spec fn spec_overwritten(data: Seq<Word>, at: nat, words: Seq<Word>) -> Seq<Word> {
    Seq::new(
        data.len(),
        |i: int|
            if at <= i < at + words.len() {
                words[i - at]
            } else {
                data[i]
            },
    )
}

/// What a heap is, to its contracts: the words and the two tops.
pub struct HeapView {
    /// All words, the heap region and the stack region and the free words
    /// between them.
    pub data: Seq<Word>,
    /// Index of the first free word above the heap region.
    pub heap_top: nat,
    /// Index of the topmost word of the stack; the capacity when the stack is
    /// empty.
    pub stack_top: nat,
}

impl HeapView {
    /// The heap never grows into the stack, and both lie inside the array.
    pub open spec fn wf(self) -> bool {
        &&& self.heap_top <= self.stack_top <= self.data.len()
        &&& 0 < self.data.len() <= MAX_HEAP_WORDS
    }

    /// The word with index `i`, read as a term.
    pub open spec fn term_at(self, i: nat) -> LTerm {
        LTerm { value: self.data[i as int] }
    }

    /// The words with the indices from `from` up to `to`.
    pub open spec fn words(self, from: nat, to: nat) -> Seq<Word> {
        self.data.subrange(from as int, to as int)
    }

    pub open spec fn capacity(self) -> nat {
        self.data.len()
    }

    /// Number of free words between the heap top and the stack top.
    pub open spec fn available(self) -> nat {
        (self.stack_top - self.heap_top) as nat
    }

    pub open spec fn has_available(self, n: nat) -> bool {
        self.heap_top + n <= self.stack_top
    }

    /// Number of words on the stack.
    pub open spec fn stack_depth(self) -> nat {
        (self.data.len() - self.stack_top) as nat
    }

    /// The heap region grown by `n` words.
    pub open spec fn heap_alloc(self, n: nat, zero: bool) -> HeapView {
        HeapView {
            data: if zero { spec_zeroed(self.data, self.heap_top, n) } else { self.data },
            heap_top: self.heap_top + n,
            stack_top: self.stack_top,
        }
    }

    /// The heap region grown by `words`.
    pub open spec fn place(self, words: Seq<Word>) -> HeapView {
        HeapView {
            data: spec_overwritten(self.data, self.heap_top, words),
            heap_top: self.heap_top + words.len(),
            stack_top: self.stack_top,
        }
    }

    /// The stack region grown downwards by `n` words.
    pub open spec fn stack_alloc(self, n: nat, zero: bool) -> HeapView {
        HeapView {
            data: if zero {
                spec_zeroed(self.data, (self.stack_top - n) as nat, n)
            } else {
                self.data
            },
            heap_top: self.heap_top,
            stack_top: (self.stack_top - n) as nat,
        }
    }

    /// One word pushed onto the stack.
    pub open spec fn stack_push(self, w: Word) -> HeapView {
        HeapView {
            data: self.data.update(self.stack_top - 1, w),
            heap_top: self.heap_top,
            stack_top: (self.stack_top - 1) as nat,
        }
    }

    /// Whether the stack holds a frame of `n` words under a continuation
    /// pointer on top.
    pub open spec fn has_frame(self, n: nat) -> bool {
        &&& self.stack_top + n + 1 <= self.data.len()
        &&& (LTerm { value: self.data[self.stack_top as int] }).spec_is_cp()
    }

    /// The word on top of the stack.
    pub open spec fn stack_top_word(self) -> Word {
        self.data[self.stack_top as int]
    }

    /// The top word and the `n` words below it dropped from the stack.
    pub open spec fn stack_dealloc(self, n: nat) -> HeapView {
        HeapView { data: self.data, heap_top: self.heap_top, stack_top: self.stack_top + n + 1 }
    }

    /// Whether the frame on top of the stack has a slot `y`: the slots lie
    /// below the continuation pointer that is on top.
    pub open spec fn has_y(self, y: nat) -> bool {
        self.stack_top + y + 1 < self.data.len()
    }

    /// Index of the slot `y` of the frame on top of the stack.
    pub open spec fn y_index(self, y: nat) -> int {
        (self.stack_top + y + 1) as int
    }

    /// The slot `y` overwritten with `w`.
    pub open spec fn set_y(self, y: nat, w: Word) -> HeapView {
        HeapView {
            data: self.data.update(self.y_index(y), w),
            heap_top: self.heap_top,
            stack_top: self.stack_top,
        }
    }

    /// Whether `p` is the address of a word in the heap region.
    pub open spec fn is_heap_addr(self, p: Word) -> bool {
        spec_addr_valid(p, self.heap_top)
    }
}

/// The memory of one process.
pub struct Heap {
    data: Vec<Word>,
    /// Heap top, begins at 0 and grows up towards the `stack_top`.
    heap_top: usize,
    /// Stack top, begins at the end of capacity and grows down.
    stack_top: usize,
}

impl View for Heap {
    type V = HeapView;

    closed spec fn view(&self) -> HeapView {
        HeapView {
            data: self.data@,
            heap_top: self.heap_top as nat,
            stack_top: self.stack_top as nat,
        }
    }
}

impl Heap {
    pub open spec fn wf(&self) -> bool {
        self@.wf()
    }

    /// A heap of `capacity` words, all zero, with nothing allocated and an
    /// empty stack.
    pub fn new(capacity: usize) -> (hp: Heap)
        requires
            0 < capacity <= MAX_HEAP_WORDS,
        ensures
            hp.wf(),
            hp@.heap_top == 0,
            hp@.stack_top == capacity,
            hp@.data == Seq::new(capacity as nat, |i: int| 0u64),
    {
        let mut data: Vec<Word> = Vec::new();
        let mut i: usize = 0;
        while i < capacity
            invariant
                i <= capacity,
                data@.len() == i,
                forall|j: int| 0 <= j < i ==> data@[j] == 0,
            decreases capacity - i,
        {
            data.push(0);
            i = i + 1;
        }
        assert(data@ =~= Seq::new(capacity as nat, |i: int| 0u64));
        Heap { data, heap_top: 0, stack_top: capacity }
    }

    pub fn get_heap_max_capacity(&self) -> (n: usize)
        requires
            self.wf(),
        ensures
            n == self@.capacity(),
    {
        self.data.len()
    }

    pub fn get_heap_available(&self) -> (n: usize)
        requires
            self.wf(),
        ensures
            n == self@.available(),
    {
        self.stack_top - self.heap_top
    }

    pub fn get_heap_top(&self) -> (n: usize)
        ensures
            n == self@.heap_top,
    {
        self.heap_top
    }

    pub fn get_stack_top(&self) -> (n: usize)
        ensures
            n == self@.stack_top,
    {
        self.stack_top
    }

    /// Number of words on the stack.
    pub fn stack_depth(&self) -> (n: usize)
        requires
            self.wf(),
        ensures
            n == self@.stack_depth(),
    {
        self.data.len() - self.stack_top
    }

    /// The address of the word with index `idx`.
    pub fn word_addr(idx: usize) -> (p: Word)
        requires
            idx <= MAX_HEAP_WORDS,
        ensures
            p == spec_word_addr(idx as nat),
            p % 8 == 0,
            p >= 8,
            p < crate::defs::HIGHEST_BIT_CP,
            spec_addr_index(p) == idx,
    {
        ((idx as Word) + 1) * 8
    }

    /// The index of the word at address `p`, where `p` is the address of a
    /// word in the heap region.
    pub fn ptr_to_index(&self, p: Word) -> (r: Option<usize>)
        requires
            self.wf(),
        ensures
            self@.is_heap_addr(p) ==> r == Some(spec_addr_index(p) as usize),
            !self@.is_heap_addr(p) ==> r.is_none(),
            r.is_some() ==> r.unwrap() < self@.heap_top && spec_word_addr(r.unwrap() as nat) == p,
    {
        if p % 8 != 0 || p < 8 {
            return None;
        }
        let i: Word = p / 8 - 1;
        if i < self.heap_top as Word {
            Some(i as usize)
        } else {
            None
        }
    }

    /// The word with index `idx`.
    pub fn get_word(&self, idx: usize) -> (w: Word)
        requires
            idx < self@.data.len(),
        ensures
            w == self@.data[idx as int],
    {
        self.data[idx]
    }

    /// The word with index `idx`, read as a term.
    pub fn get_term(&self, idx: usize) -> (t: LTerm)
        requires
            idx < self@.data.len(),
        ensures
            t.value == self@.data[idx as int],
    {
        LTerm::from_raw(self.data[idx])
    }

    /// Overwrites one word of the heap region.
    pub fn set_word(&mut self, idx: usize, w: Word)
        requires
            old(self).wf(),
            idx < old(self)@.heap_top,
        ensures
            final(self)@ == (HeapView { data: old(self)@.data.update(idx as int, w), ..old(self)@ }),
            final(self).wf(),
    {
        self.data[idx] = w;
    }

    /// True iff at least `need` words remain between the heap top and the
    /// stack top.
    #[inline]
    pub fn heap_has_available(&self, need: usize) -> (b: bool)
        requires
            self.wf(),
        ensures
            b == self@.has_available(need as nat),
    {
        need <= self.stack_top - self.heap_top
    }

    /// True iff the stack can grow by `need` words without reaching the heap.
    #[inline]
    pub fn stack_have(&self, need: usize) -> (b: bool)
        requires
            self.wf(),
        ensures
            b == self@.has_available(need as nat),
    {
        need <= self.stack_top - self.heap_top
    }

    /// Sets the `n` words from `from` on to zero.
    fn zero_fill(&mut self, from: usize, n: usize)
        requires
            from + n <= old(self)@.data.len(),
        ensures
            final(self)@ == (HeapView {
                data: spec_zeroed(old(self)@.data, from as nat, n as nat),
                ..old(self)@
            }),
    {
        let total: usize = self.data.len();
        assert(from + n <= total);
        let end: usize = from + n;
        let mut i: usize = from;
        while i < end
            invariant
                from <= i <= end,
                end == from + n,
                end <= self.data@.len(),
                self.data@.len() == old(self).data@.len(),
                self.heap_top == old(self).heap_top,
                self.stack_top == old(self).stack_top,
                forall|j: int|
                    0 <= j < self.data@.len() ==> self.data@[j] == if from <= j < i {
                        0u64
                    } else {
                        old(self).data@[j]
                    },
            decreases end - i,
        {
            self.data[i] = 0;
            i = i + 1;
        }
        assert(self.data@ =~= spec_zeroed(old(self)@.data, from as nat, n as nat));
    }

    /// Grows the heap region by `n_words` and returns the address of the first
    /// new word; with `zero` the new words are set to zero, without it they
    /// keep what they held. Fails, changing nothing, if fewer than `n_words`
    /// are free.
    pub fn allocate(&mut self, n_words: usize, zero: bool) -> (r: RtResult<Word>)
        requires
            old(self).wf(),
        ensures
            final(self).wf(),
            old(self)@.has_available(n_words as nat) ==> r == Ok::<Word, Error>(
                spec_word_addr(old(self)@.heap_top),
            ) && final(self)@ == old(self)@.heap_alloc(n_words as nat, zero),
            !old(self)@.has_available(n_words as nat) ==> r == Err::<Word, Error>(
                Error::HeapIsFull,
            ) && final(self)@ == old(self)@,
    {
        if !self.heap_has_available(n_words) {
            return Err(Error::HeapIsFull);
        }
        let pos: usize = self.heap_top;
        if zero {
            self.zero_fill(pos, n_words);
        }
        self.heap_top = pos + n_words;
        Ok(Heap::word_addr(pos))
    }

    /// Grows the heap region by the given words and returns the address of
    /// the first of them. Fails, changing nothing, if fewer words are free
    /// than are given.
    pub fn place_words(&mut self, words: &Vec<Word>) -> (r: RtResult<Word>)
        requires
            old(self).wf(),
        ensures
            final(self).wf(),
            old(self)@.has_available(words@.len()) ==> r == Ok::<Word, Error>(
                spec_word_addr(old(self)@.heap_top),
            ) && final(self)@ == old(self)@.place(words@),
            !old(self)@.has_available(words@.len()) ==> r == Err::<Word, Error>(
                Error::HeapIsFull,
            ) && final(self)@ == old(self)@,
    {
        let n: usize = words.len();
        if !self.heap_has_available(n) {
            return Err(Error::HeapIsFull);
        }
        let pos: usize = self.heap_top;
        let mut i: usize = 0;
        while i < n
            invariant
                i <= n,
                n == words@.len(),
                pos == old(self).heap_top,
                pos + n <= self.stack_top,
                self.stack_top <= self.data@.len(),
                self.data@.len() == old(self).data@.len(),
                self.heap_top == old(self).heap_top,
                self.stack_top == old(self).stack_top,
                forall|j: int|
                    0 <= j < self.data@.len() ==> self.data@[j] == if pos <= j < pos + i {
                        words@[j - pos]
                    } else {
                        old(self).data@[j]
                    },
            decreases n - i,
        {
            self.data[pos + i] = words[i];
            i = i + 1;
        }
        self.heap_top = pos + n;
        assert(self.data@ =~= spec_overwritten(old(self)@.data, pos as nat, words@));
        Ok(Heap::word_addr(pos))
    }

    /// Makes sure that `need` words can be allocated. This is the one place
    /// where memory would be reclaimed; as nothing is reclaimed here, it fails
    /// when the words are not free.
    pub fn ensure_size(&mut self, need: usize) -> (r: RtResult<()>)
        requires
            old(self).wf(),
        ensures
            final(self)@ == old(self)@,
            old(self)@.has_available(need as nat) ==> r == Ok::<(), Error>(()),
            !old(self)@.has_available(need as nat) ==> r == Err::<(), Error>(Error::HeapIsFull),
    {
        if self.heap_has_available(need) {
            return Ok(());
        }
        Err(Error::HeapIsFull)
    }

    /// Grows the stack by `need` words towards the heap, or fails, changing
    /// nothing, if fewer than `need` words are free.
    pub fn stack_alloc(&mut self, need: usize, zero: bool) -> (r: RtResult<()>)
        requires
            old(self).wf(),
        ensures
            final(self).wf(),
            old(self)@.has_available(need as nat) ==> r == Ok::<(), Error>(()) && final(self)@
                == old(self)@.stack_alloc(need as nat, zero),
            !old(self)@.has_available(need as nat) ==> r == Err::<(), Error>(Error::StackIsFull)
                && final(self)@ == old(self)@,
    {
        if !self.stack_have(need) {
            return Err(Error::StackIsFull);
        }
        self.stack_alloc_unchecked(need, zero);
        Ok(())
    }

    /// Grows the stack by `need` words that are known to be free.
    pub fn stack_alloc_unchecked(&mut self, need: usize, zero: bool)
        requires
            old(self).wf(),
            old(self)@.has_available(need as nat),
        ensures
            final(self).wf(),
            final(self)@ == old(self)@.stack_alloc(need as nat, zero),
    {
        let new_top: usize = self.stack_top - need;
        if zero {
            self.zero_fill(new_top, need);
        }
        self.stack_top = new_top;
    }

    /// Pushes one term onto the stack, or fails, changing nothing, if no word
    /// is free.
    pub fn stack_push(&mut self, val: LTerm) -> (r: RtResult<()>)
        requires
            old(self).wf(),
        ensures
            final(self).wf(),
            old(self)@.has_available(1) ==> r == Ok::<(), Error>(()) && final(self)@ == old(self)@.stack_push(val.value),
            !old(self)@.has_available(1) ==> r == Err::<(), Error>(Error::StackIsFull) && final(self)@ == old(self)@,
    {
        if !self.stack_have(1) {
            return Err(Error::StackIsFull);
        }
        self.stack_push_lterm_unchecked(val);
        Ok(())
    }

    /// Pushes one term onto a stack that is known to have a free word.
    pub fn stack_push_lterm_unchecked(&mut self, val: LTerm)
        requires
            old(self).wf(),
            old(self)@.has_available(1),
        ensures
            final(self).wf(),
            final(self)@ == old(self)@.stack_push(val.value),
    {
        let pos: usize = self.stack_top - 1;
        self.data[pos] = val.raw();
        self.stack_top = pos;
    }

    /// Check whether the slot `y` can be found in the frame on top of the
    /// stack.
    pub fn stack_have_y(&self, y: Word) -> (b: bool)
        requires
            self.wf(),
        ensures
            b == self@.has_y(y as nat),
    {
        let depth: usize = self.data.len() - self.stack_top;
        depth >= 2 && y <= (depth - 2) as Word
    }

    /// Sets the slot `index` of the frame on top of the stack to `val`.
    pub fn set_y(&mut self, index: Word, val: LTerm) -> (r: RtResult<()>)
        requires
            old(self).wf(),
        ensures
            final(self).wf(),
            old(self)@.has_y(index as nat) ==> r == Ok::<(), Error>(()) && final(self)@ == old(self)@.set_y(index as nat, val.value),
            !old(self)@.has_y(index as nat) ==> r == Err::<(), Error>(
                Error::StackIndexRange(index),
            ) && final(self)@ == old(self)@,
    {
        if !self.stack_have_y(index) {
            return Err(Error::StackIndexRange(index));
        }
        let pos: usize = (index as usize) + self.stack_top + 1;
        self.data[pos] = val.raw();
        Ok(())
    }

    /// The term in the slot `index` of the frame on top of the stack.
    pub fn get_y(&self, index: Word) -> (r: RtResult<LTerm>)
        requires
            self.wf(),
        ensures
            self@.has_y(index as nat) ==> r == Ok::<LTerm, Error>(
                LTerm { value: self@.data[self@.y_index(index as nat)] },
            ),
            !self@.has_y(index as nat) ==> r == Err::<LTerm, Error>(
                Error::StackIndexRange(index),
            ),
    {
        if !self.stack_have_y(index) {
            return Err(Error::StackIndexRange(index));
        }
        let pos: usize = (index as usize) + self.stack_top + 1;
        Ok(LTerm::from_raw(self.data[pos]))
    }

    /// Takes the continuation pointer from the stack top and drops it and the
    /// `n` words below it.
    pub fn stack_deallocate(&mut self, n: usize) -> (cp: LTerm)
        requires
            old(self).wf(),
            old(self)@.has_frame(n as nat),
        ensures
            final(self).wf(),
            cp.value == old(self)@.stack_top_word(),
            cp.spec_is_cp(),
            final(self)@ == old(self)@.stack_dealloc(n as nat),
    {
        let cp = LTerm::from_raw(self.data[self.stack_top]);
        self.stack_top = self.stack_top + n + 1;
        cp
    }
}

} // verus!
