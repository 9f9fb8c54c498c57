//! Printing terms.
//!
//! A term is printed by what it holds, and a pointer by what it points to in
//! the heap. Objects are placed into the heap in the order in which they are
//! built, the parts before the whole, so a pointer inside an object is followed
//! only where it points below that object; any other pointer is printed as a
//! number.
use vstd::prelude::*;
use vstd::string::StringExecFns;
use crate::defs::{Word, SWord, HIGHEST_BIT_CP};
use crate::emulator::atom::{spec_atom_known, AtomTable};
use crate::emulator::heap::{Heap, HeapView};
use crate::term::boxed::box_header::{
    spec_headerword_arity, spec_headerword_boxtype, BoxTypeTag, headerword_to_arity,
    headerword_to_boxtype,
};
use crate::term::lterm::{LTerm, TermTag};

verus! {

/// The character for one digit below sixteen.
pub open spec fn spec_digit_char(d: nat) -> char {
    if d == 0 {
        '0'
    } else if d == 1 {
        '1'
    } else if d == 2 {
        '2'
    } else if d == 3 {
        '3'
    } else if d == 4 {
        '4'
    } else if d == 5 {
        '5'
    } else if d == 6 {
        '6'
    } else if d == 7 {
        '7'
    } else if d == 8 {
        '8'
    } else if d == 9 {
        '9'
    } else if d == 10 {
        'a'
    } else if d == 11 {
        'b'
    } else if d == 12 {
        'c'
    } else if d == 13 {
        'd'
    } else if d == 14 {
        'e'
    } else {
        'f'
    }
}

/// The decimal digits of `n`, the most significant first.
pub open spec fn spec_decimal_digits(n: nat) -> Seq<char>
    decreases n,
{
    if n < 10 {
        seq![spec_digit_char(n)]
    } else {
        spec_decimal_digits(n / 10).push(spec_digit_char(n % 10))
    }
}

/// The hexadecimal digits of `n`, the most significant first, in lower case.
pub open spec fn spec_hex_digits(n: nat) -> Seq<char>
    decreases n,
{
    if n < 16 {
        seq![spec_digit_char(n)]
    } else {
        spec_hex_digits(n / 16).push(spec_digit_char(n % 16))
    }
}

/// A signed number in decimal, with a minus sign before a negative one.
pub open spec fn spec_signed_decimal(v: int) -> Seq<char> {
    if v < 0 {
        seq!['-'] + spec_decimal_digits((-v) as nat)
    } else {
        spec_decimal_digits(v as nat)
    }
}

/// How a special term is printed.
pub open spec fn spec_format_special(t: LTerm) -> Seq<char> {
    if t == LTerm::spec_nil() {
        "[]"@
    } else if t.spec_is_non_value() {
        "NON_VALUE"@
    } else if t == LTerm::spec_empty_binary() {
        "<<>>"@
    } else if t == LTerm::spec_empty_tuple() {
        "{}"@
    } else {
        "Special(0x"@ + spec_hex_digits(t.spec_special_value() as nat) + ")"@
    }
}

/// Whether the list cell at index `i` begins a proper list of small integers
/// that are all printable characters, from 32 to 126.
pub open spec fn spec_cons_is_ascii_string(hv: HeapView, i: nat) -> bool
    decreases i,
{
    let hd = hv.term_at(i);
    let tl = hv.term_at(i + 1);
    &&& hd.spec_is_small()
    &&& 32 <= hd.spec_small_signed() < 127
    &&& if hv.is_cons_below(tl, i) {
        spec_cons_is_ascii_string(hv, hv.cons_index(tl))
    } else {
        tl == LTerm::spec_nil()
    }
}

/// The characters of the list that begins with the cell at index `i`.
pub open spec fn spec_cons_ascii_chars(hv: HeapView, i: nat) -> Seq<char>
    decreases i,
{
    let hd = hv.term_at(i);
    let tl = hv.term_at(i + 1);
    let c = seq![(hd.spec_val_without_tag() % 256) as u8 as char];
    if hv.is_cons_below(tl, i) {
        c + spec_cons_ascii_chars(hv, hv.cons_index(tl))
    } else {
        c
    }
}

/// How the term `t` is printed, where `t` is held by an object that begins at
/// the word `bound` of the heap (or by nothing in the heap, and `bound` is the
/// heap top).
pub open spec fn spec_fmt(hv: HeapView, atoms: Seq<Seq<char>>, t: LTerm, bound: nat) -> Seq<char>
    decreases bound, 2nat, 0nat,
{
    match t.spec_term_tag() {
        TermTag::Boxed => {
            if t.spec_is_cp() {
                "CP(0x"@ + spec_hex_digits((t.value - HIGHEST_BIT_CP) as nat) + ")"@
            } else if t.spec_is_non_value() {
                "NON_VALUE"@
            } else if hv.is_box_below(t, bound) {
                spec_format_header(
                    hv,
                    atoms,
                    hv.box_header(t),
                    Some(crate::emulator::heap::spec_addr_index(t.value)),
                    bound,
                )
            } else {
                "Boxed(0x"@ + spec_hex_digits(t.value as nat) + ")"@
            }
        },
        TermTag::Cons => {
            if hv.is_cons_below(t, bound) {
                if spec_cons_is_ascii_string(hv, hv.cons_index(t)) {
                    "\""@ + spec_cons_ascii_chars(hv, hv.cons_index(t)) + "\""@
                } else {
                    "["@ + spec_format_cons(hv, atoms, hv.cons_index(t)) + "]"@
                }
            } else {
                "Cons(0x"@ + spec_hex_digits(t.value as nat) + ")"@
            }
        },
        TermTag::Small => spec_signed_decimal(t.spec_small_signed()),
        TermTag::Special => spec_format_special(t),
        TermTag::LocalPid => "LocalPid("@ + spec_decimal_digits(t.spec_val_without_tag() as nat)
            + ")"@,
        TermTag::LocalPort => "LocalPort("@ + spec_decimal_digits(t.spec_val_without_tag() as nat)
            + ")"@,
        TermTag::Atom => {
            if spec_atom_known(atoms, t) {
                "'"@ + atoms[t.spec_val_without_tag() as int] + "'"@
            } else {
                "Atom?"@
            }
        },
        TermTag::Header => "Header("@ + spec_format_header(hv, atoms, t.value, None, 0) + ")"@,
    }
}

/// How the object with the header word `w` is printed. `at` is the index of
/// the header in the heap; a header that was met outside of the heap has none.
pub open spec fn spec_format_header(
    hv: HeapView,
    atoms: Seq<Seq<char>>,
    w: Word,
    at: Option<nat>,
    bound: nat,
) -> Seq<char>
    decreases bound, 1nat, 0nat,
{
    match spec_headerword_boxtype(w) {
        Some(BoxTypeTag::Binary) => "Bin"@,
        Some(BoxTypeTag::Tuple) => match at {
            Some(i) => if i < bound {
                "{"@ + spec_format_tuple(hv, atoms, i, spec_headerword_arity(w) as nat, 0) + "}"@
            } else {
                "<err formatting tuple: NullPointer>"@
            },
            None => "<err formatting tuple: NullPointer>"@,
        },
        Some(BoxTypeTag::Closure) => "Fun"@,
        Some(BoxTypeTag::Float) => "Float"@,
        Some(BoxTypeTag::ExternalPid) => "ExtPid"@,
        Some(BoxTypeTag::ExternalPort) => "ExtPort"@,
        Some(BoxTypeTag::ExternalRef) => "ExtRef"@,
        Some(BoxTypeTag::BigInteger) => "BigInt"@,
        Some(BoxTypeTag::Import) => "Import"@,
        Some(BoxTypeTag::Export) => "Export"@,
        Some(BoxTypeTag::ErlMap) => "Map"@,
        None => "Box?"@,
    }
}

/// The elements from `k` on of the tuple whose header stands at index `i`,
/// each followed by a comma and a space but the last.
pub open spec fn spec_format_tuple(
    hv: HeapView,
    atoms: Seq<Seq<char>>,
    i: nat,
    arity: nat,
    k: nat,
) -> Seq<char>
    decreases i + 1, 0nat, arity - k,
{
    if k >= arity {
        Seq::<char>::empty()
    } else {
        let e = spec_fmt(hv, atoms, hv.term_at(i + 1 + k), i);
        let sep = if k + 1 < arity {
            ", "@
        } else {
            Seq::<char>::empty()
        };
        e + sep + spec_format_tuple(hv, atoms, i, arity, k + 1)
    }
}

/// The elements of the list that begins with the cell at index `i`, with a
/// comma and a space between them, and after a bar, with a space on each
/// side of it, the tail of a list that does not end with the empty list.
pub open spec fn spec_format_cons(hv: HeapView, atoms: Seq<Seq<char>>, i: nat) -> Seq<char>
    decreases i + 1, 0nat, 0nat,
{
    let hd = hv.term_at(i);
    let tl = hv.term_at(i + 1);
    let first = spec_fmt(hv, atoms, hd, i);
    if tl == LTerm::spec_nil() {
        first
    } else if hv.is_cons_below(tl, i) {
        first + ", "@ + spec_format_cons(hv, atoms, hv.cons_index(tl))
    } else {
        first + " | "@ + spec_fmt(hv, atoms, tl, i)
    }
}

/// `String::push` of std appends the given character to the end of the
/// string.
#[verifier::external_body]
fn push_char(s: &mut String, c: char)
    ensures
        final(s)@ == old(s)@.push(c),
{
    s.push(c);
}

fn digit_char(d: Word) -> (c: char)
    requires
        d < 16,
    ensures
        c == spec_digit_char(d as nat),
{
    if d == 0 {
        '0'
    } else if d == 1 {
        '1'
    } else if d == 2 {
        '2'
    } else if d == 3 {
        '3'
    } else if d == 4 {
        '4'
    } else if d == 5 {
        '5'
    } else if d == 6 {
        '6'
    } else if d == 7 {
        '7'
    } else if d == 8 {
        '8'
    } else if d == 9 {
        '9'
    } else if d == 10 {
        'a'
    } else if d == 11 {
        'b'
    } else if d == 12 {
        'c'
    } else if d == 13 {
        'd'
    } else if d == 14 {
        'e'
    } else {
        'f'
    }
}

/// Appends `n` in decimal.
pub fn push_decimal(out: &mut String, n: Word)
    ensures
        final(out)@ == old(out)@ + spec_decimal_digits(n as nat),
    decreases n,
{
    if n >= 10 {
        push_decimal(out, n / 10);
    }
    push_char(out, digit_char(n % 10));
    assert(out@ =~= old(out)@ + spec_decimal_digits(n as nat));
}

/// Appends `n` in hexadecimal.
pub fn push_hex(out: &mut String, n: Word)
    ensures
        final(out)@ == old(out)@ + spec_hex_digits(n as nat),
    decreases n,
{
    if n >= 16 {
        push_hex(out, n / 16);
    }
    push_char(out, digit_char(n % 16));
    assert(out@ =~= old(out)@ + spec_hex_digits(n as nat));
}

/// Appends the signed `v` in decimal.
pub fn push_signed_decimal(out: &mut String, v: SWord)
    ensures
        final(out)@ == old(out)@ + spec_signed_decimal(v as int),
{
    if v < 0 {
        push_char(out, '-');
        let magnitude: Word = if v == SWord::MIN {
            HIGHEST_BIT_CP
        } else {
            (-v) as Word
        };
        push_decimal(out, magnitude);
        assert(out@ =~= old(out)@ + spec_signed_decimal(v as int));
    } else {
        push_decimal(out, v as Word);
    }
}

impl LTerm {
    /// Appends a special term as it is printed.
    pub fn format_special(self, out: &mut String)
        requires
            self.spec_is_special(),
        ensures
            final(out)@ == old(out)@ + spec_format_special(self),
    {
        if self == LTerm::nil() {
            out.append("[]");
        } else if self.is_non_value() {
            out.append("NON_VALUE");
        } else if self == LTerm::empty_binary() {
            out.append("<<>>");
        } else if self == LTerm::empty_tuple() {
            out.append("{}");
        } else {
            out.append("Special(0x");
            push_hex(out, self.get_special_value());
            out.append(")");
            assert(out@ =~= old(out)@ + spec_format_special(self));
        }
    }

    /// Whether the list that begins with the cell at index `idx` is a proper
    /// list of printable characters.
    pub fn cons_is_ascii_string(hp: &Heap, idx: usize) -> (b: bool)
        requires
            hp.wf(),
            idx + 2 <= hp@.heap_top,
        ensures
            b == spec_cons_is_ascii_string(hp@, idx as nat),
    {
        let mut cur: usize = idx;
        loop
            invariant
                hp.wf(),
                cur + 2 <= hp@.heap_top,
                spec_cons_is_ascii_string(hp@, cur as nat) == spec_cons_is_ascii_string(
                    hp@,
                    idx as nat,
                ),
            decreases cur,
        {
            let cell = hp.read_cons(cur);
            let hd = cell.hd();
            if !hd.is_small() {
                return false;
            }
            let hd_value: SWord = hd.get_small_signed();
            if hd_value < 32 || hd_value >= 127 {
                return false;
            }
            let tl = cell.tl();
            match hp.find_cons(tl, cur) {
                None => {
                    // The empty list as the tail is required for a true string
                    return tl == LTerm::nil();
                },
                Some(next) => {
                    cur = next;
                },
            }
        }
    }

    /// Appends, between double quotes, the characters of the list that begins
    /// with the cell at index `idx`.
    pub fn format_cons_ascii(hp: &Heap, idx: usize, out: &mut String)
        requires
            hp.wf(),
            idx + 2 <= hp@.heap_top,
            spec_cons_is_ascii_string(hp@, idx as nat),
        ensures
            final(out)@ == old(out)@ + ("\""@ + spec_cons_ascii_chars(hp@, idx as nat) + "\""@),
    {
        out.append("\"");
        let ghost start = out@;
        let ghost target = out@ + spec_cons_ascii_chars(hp@, idx as nat);
        let mut cur: usize = idx;
        let mut done: bool = false;
        while !done
            invariant
                hp.wf(),
                cur + 2 <= hp@.heap_top,
                !done ==> spec_cons_is_ascii_string(hp@, cur as nat),
                !done ==> out@ + spec_cons_ascii_chars(hp@, cur as nat) == target,
                done ==> out@ == target,
            decreases cur + (if done { 0int } else { 1int }),
        {
            let cell = hp.read_cons(cur);
            let code: Word = cell.hd().get_small_unsigned();
            let ghost before = out@;
            push_char(out, (code as u8) as char);
            match hp.find_cons(cell.tl(), cur) {
                None => {
                    done = true;
                },
                Some(next) => {
                    proof {
                        let c = seq![(code % 256) as u8 as char];
                        assert(out@ + spec_cons_ascii_chars(hp@, next as nat) =~= before + (c
                            + spec_cons_ascii_chars(hp@, next as nat)));
                    }
                    cur = next;
                },
            }
        }
        out.append("\"");
        assert(out@ =~= old(out)@ + ("\""@ + spec_cons_ascii_chars(hp@, idx as nat) + "\""@));
    }

    /// Appends the elements of the list that begins with the cell at index
    /// `idx`, between square brackets.
    pub fn format_cons(hp: &Heap, atoms: &AtomTable, idx: usize, out: &mut String)
        requires
            hp.wf(),
            idx + 2 <= hp@.heap_top,
        ensures
            final(out)@ == old(out)@ + ("["@ + spec_format_cons(hp@, atoms@, idx as nat) + "]"@),
        decreases idx + 1, 0nat, 0nat,
    {
        out.append("[");
        let ghost target = out@ + spec_format_cons(hp@, atoms@, idx as nat);
        let mut cur: usize = idx;
        let mut done: bool = false;
        while !done
            invariant
                hp.wf(),
                cur <= idx,
                cur + 2 <= hp@.heap_top,
                !done ==> out@ + spec_format_cons(hp@, atoms@, cur as nat) == target,
                done ==> out@ == target,
            decreases cur + (if done { 0int } else { 1int }),
        {
            let cell = hp.read_cons(cur);
            let ghost before = out@;
            let hd = cell.hd();
            hd.fmt_into(hp, atoms, cur, out);
            let ghost first = spec_fmt(hp@, atoms@, hd, cur as nat);
            let tl = cell.tl();
            if tl == LTerm::nil() {
                // Proper list ends here, do not show the tail
                done = true;
            } else {
                match hp.find_cons(tl, cur) {
                    Some(next) => {
                        // List continues, print a comma and follow the tail
                        out.append(", ");
                        proof {
                            assert(out@ + spec_format_cons(hp@, atoms@, next as nat) =~= before + (
                            first + ", "@ + spec_format_cons(hp@, atoms@, next as nat)));
                        }
                        cur = next;
                    },
                    None => {
                        // Improper list, show tail
                        out.append(" | ");
                        tl.fmt_into(hp, atoms, cur, out);
                        proof {
                            assert(out@ =~= before + (first + " | "@ + spec_fmt(
                                hp@,
                                atoms@,
                                tl,
                                cur as nat,
                            )));
                        }
                        done = true;
                    },
                }
            }
        }
        out.append("]");
        assert(out@ =~= old(out)@ + ("["@ + spec_format_cons(hp@, atoms@, idx as nat) + "]"@));
    }

    /// Appends the elements of the tuple whose header stands at index `idx`,
    /// between braces.
    pub fn format_tuple(hp: &Heap, atoms: &AtomTable, idx: usize, arity: usize, out: &mut String)
        requires
            hp.wf(),
            idx + 1 + arity <= hp@.heap_top,
        ensures
            final(out)@ == old(out)@ + ("{"@ + spec_format_tuple(
                hp@,
                atoms@,
                idx as nat,
                arity as nat,
                0,
            ) + "}"@),
        decreases idx + 1, 0nat, 0nat,
    {
        out.append("{");
        let ghost target = out@ + spec_format_tuple(hp@, atoms@, idx as nat, arity as nat, 0);
        let mut i: usize = 0;
        while i < arity
            invariant
                hp.wf(),
                i <= arity,
                idx + 1 + arity <= hp@.heap_top,
                out@ + spec_format_tuple(hp@, atoms@, idx as nat, arity as nat, i as nat)
                    == target,
            decreases arity - i,
        {
            let ghost before = out@;
            let e = hp.get_term(idx + 1 + i);
            e.fmt_into(hp, atoms, idx, out);
            if i + 1 < arity {
                out.append(", ");
            }
            proof {
                let sep = if i + 1 < arity {
                    ", "@
                } else {
                    Seq::<char>::empty()
                };
                let rest = spec_format_tuple(
                    hp@,
                    atoms@,
                    idx as nat,
                    arity as nat,
                    (i + 1) as nat,
                );
                assert(out@ + rest =~= before + (spec_fmt(hp@, atoms@, e, idx as nat) + sep
                    + rest));
            }
            i = i + 1;
        }
        assert(spec_format_tuple(hp@, atoms@, idx as nat, arity as nat, arity as nat)
            =~= Seq::<char>::empty());
        out.append("}");
        assert(out@ =~= old(out)@ + ("{"@ + spec_format_tuple(
            hp@,
            atoms@,
            idx as nat,
            arity as nat,
            0,
        ) + "}"@));
    }

    /// Appends what the header word `w` and the words that follow it show.
    /// `at` is the index of the header in the heap, when it stands there, and
    /// is used to fetch the following words and show more detail.
    pub fn format_header(
        w: Word,
        at: Option<usize>,
        hp: &Heap,
        atoms: &AtomTable,
        bound: usize,
        out: &mut String,
    )
        requires
            hp.wf(),
            bound <= hp@.heap_top,
            at.is_some() ==> at.unwrap() + 1 + spec_headerword_arity(w) <= bound,
        ensures
            final(out)@ == old(out)@ + spec_format_header(
                hp@,
                atoms@,
                w,
                match at {
                    Some(i) => Some(i as nat),
                    None => None,
                },
                bound as nat,
            ),
        decreases bound, 1nat, 0nat,
    {
        match headerword_to_boxtype(w) {
            Some(BoxTypeTag::Binary) => out.append("Bin"),
            Some(BoxTypeTag::Tuple) => match at {
                Some(i) => LTerm::format_tuple(hp, atoms, i, headerword_to_arity(w) as usize, out),
                None => out.append("<err formatting tuple: NullPointer>"),
            },
            Some(BoxTypeTag::Closure) => out.append("Fun"),
            Some(BoxTypeTag::Float) => out.append("Float"),
            Some(BoxTypeTag::ExternalPid) => out.append("ExtPid"),
            Some(BoxTypeTag::ExternalPort) => out.append("ExtPort"),
            Some(BoxTypeTag::ExternalRef) => out.append("ExtRef"),
            Some(BoxTypeTag::BigInteger) => out.append("BigInt"),
            Some(BoxTypeTag::Import) => out.append("Import"),
            Some(BoxTypeTag::Export) => out.append("Export"),
            Some(BoxTypeTag::ErlMap) => out.append("Map"),
            None => out.append("Box?"),
        }
    }

    /// Appends the term as it is printed, following pointers into the first
    /// `bound` words of the heap.
    pub fn fmt_into(self, hp: &Heap, atoms: &AtomTable, bound: usize, out: &mut String)
        requires
            hp.wf(),
            bound <= hp@.heap_top,
        ensures
            final(out)@ == old(out)@ + spec_fmt(hp@, atoms@, self, bound as nat),
        decreases bound, 2nat, 0nat,
    {
        match self.get_term_tag() {
            TermTag::Boxed => {
                if self.is_cp() {
                    out.append("CP(0x");
                    push_hex(out, self.get_cp_ptr());
                    out.append(")");
                } else if self.is_non_value() {
                    out.append("NON_VALUE");
                } else {
                    match hp.find_box(self, bound) {
                        Some(found) => {
                            LTerm::format_header(
                                found.1.header_word,
                                Some(found.0),
                                hp,
                                atoms,
                                bound,
                                out,
                            );
                        },
                        None => {
                            out.append("Boxed(0x");
                            push_hex(out, self.raw());
                            out.append(")");
                        },
                    }
                }
            },
            TermTag::Cons => {
                match hp.find_cons(self, bound) {
                    Some(idx) => {
                        if LTerm::cons_is_ascii_string(hp, idx) {
                            LTerm::format_cons_ascii(hp, idx, out);
                        } else {
                            LTerm::format_cons(hp, atoms, idx, out);
                        }
                    },
                    None => {
                        out.append("Cons(0x");
                        push_hex(out, self.raw());
                        out.append(")");
                    },
                }
            },
            TermTag::Small => push_signed_decimal(out, self.get_small_signed()),
            TermTag::Special => self.format_special(out),
            TermTag::LocalPid => {
                out.append("LocalPid(");
                push_decimal(out, self.get_term_val_without_tag());
                out.append(")");
            },
            TermTag::LocalPort => {
                out.append("LocalPort(");
                push_decimal(out, self.get_term_val_without_tag());
                out.append(")");
            },
            TermTag::Atom => {
                match atoms.lookup(self) {
                    Some(name) => {
                        out.append("'");
                        out.append(name.as_str());
                        out.append("'");
                    },
                    None => out.append("Atom?"),
                }
            },
            TermTag::Header => {
                out.append("Header(");
                LTerm::format_header(self.raw(), None, hp, atoms, 0, out);
                out.append(")");
            },
        }
        assert(out@ =~= old(out)@ + spec_fmt(hp@, atoms@, self, bound as nat));
    }

    /// The term as it is printed: a number, a name, or the object in `hp` that
    /// it points to.
    pub fn fmt(self, hp: &Heap, atoms: &AtomTable) -> (s: String)
        requires
            hp.wf(),
        ensures
            s@ == spec_fmt(hp@, atoms@, self, hp@.heap_top),
    {
        let mut out = String::new();
        self.fmt_into(hp, atoms, hp.get_heap_top(), &mut out);
        assert(out@ =~= spec_fmt(hp@, atoms@, self, hp@.heap_top));
        out
    }
}

} // verus!
