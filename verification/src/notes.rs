//! The build-notes editor: colour-code display toggling, selection capture
//! and colour insertion, all on the UTF-8 bytes of the notes buffer.

use vstd::prelude::*;
use vstd::utf8::*;
use crate::color_codes::{hidden, revealed, reveal_color_codes, hide_color_codes, lemma_hide_undoes_reveal};
use crate::text::contains_seq;
use crate::text::{chars_of, owned};

verus! {

/// The bytes of `a + b` are the bytes of `a` followed by those of `b`.
pub proof fn lemma_encode_concat(a: Seq<char>, b: Seq<char>)
    ensures
        encode_utf8(a + b) == encode_utf8(a) + encode_utf8(b),
    decreases a.len(),
{
    if a.len() == 0 {
        assert(a + b =~= b);
        assert(encode_utf8(a) + encode_utf8(b) =~= encode_utf8(b));
    } else {
        let ab = a + b;
        assert(ab[0] == a[0]);
        assert(ab.drop_first() =~= a.drop_first() + b);
        lemma_encode_concat(a.drop_first(), b);
        assert(encode_utf8(ab) =~= encode_scalar(a[0] as u32) + encode_utf8(a.drop_first())
            + encode_utf8(b));
    }
}

/// The end of the bytes of a prefix is a character boundary of the whole.
proof fn lemma_boundary_after_prefix(a: Seq<char>, b: Seq<char>)
    ensures
        valid_utf8(encode_utf8(a + b)),
        is_char_boundary(encode_utf8(a + b), encode_utf8(a).len() as int),
    decreases a.len(),
{
    encode_utf8_valid_utf8(a + b);
    if a.len() > 0 {
        let ab = a + b;
        let bytes = encode_utf8(ab);
        encode_utf8_first_scalar(ab);
        assert(ab.drop_first() =~= a.drop_first() + b);
        assert(pop_first_scalar(bytes) =~= encode_utf8(ab.drop_first()));
        lemma_boundary_after_prefix(a.drop_first(), b);
        lemma_encode_concat(a, b);
        lemma_encode_concat(a.drop_first(), b);
        assert(encode_utf8(a).len() == encode_scalar(a[0] as u32).len() + encode_utf8(
            a.drop_first(),
        ).len());
        char_is_scalar(a[0]);
        assert(encode_scalar(a[0] as u32).len() > 0);
    }
}

/// Byte offset in the UTF-8 form of `s` where its character number `k`
/// starts, or the byte length of `s` where it has no such character.
pub open spec fn byte_offset(s: Seq<char>, k: int) -> int {
    if 0 <= k < s.len() {
        encode_utf8(s.take(k)).len() as int
    } else {
        encode_utf8(s).len() as int
    }
}

/// A byte offset computed from a character index lies on a character
/// boundary of the text.
pub proof fn lemma_byte_offset_is_boundary(s: Seq<char>, k: int)
    ensures
        valid_utf8(encode_utf8(s)),
        is_char_boundary(encode_utf8(s), byte_offset(s, k)),
        0 <= byte_offset(s, k) <= encode_utf8(s).len(),
{
    let j = if 0 <= k < s.len() { k } else { s.len() as int };
    assert(s =~= s.take(j) + s.skip(j));
    lemma_boundary_after_prefix(s.take(j), s.skip(j));
    lemma_encode_concat(s.take(j), s.skip(j));
    assert(s.take(s.len() as int) =~= s);
}

/// Number of bytes in the UTF-8 form of `c`.
fn char_width(c: char) -> (w: usize)
    ensures
        w == encode_utf8(seq![c]).len(),
        1 <= w <= 4,
{
    proof {
        char_is_scalar(c);
        reveal_with_fuel(encode_utf8, 2);
        assert(seq![c][0] == c);
        assert(seq![c].drop_first() =~= Seq::<char>::empty());
        assert(encode_utf8(Seq::<char>::empty()) =~= Seq::<u8>::empty());
        assert(encode_utf8(seq![c]) =~= encode_scalar(c as u32));
    }
    let v = c as u32;
    if v < 0x80 {
        1
    } else if v < 0x800 {
        2
    } else if v < 0x10000 {
        3
    } else {
        4
    }
}

/// The byte offset where character number `ch_idx` of `s` starts, or the
/// byte length of `s` where it has fewer characters.
pub fn char_index_to_byte(s: &str, ch_idx: usize) -> (r: usize)
    ensures
        r == byte_offset(s@, ch_idx as int),
{
    let total = s.as_bytes().len();
    let v = chars_of(s);
    let n = v.len();
    let stop = if ch_idx < n {
        ch_idx
    } else {
        n
    };
    let mut acc: usize = 0;
    let mut i: usize = 0;
    proof {
        assert(v@.take(0) =~= Seq::<char>::empty());
    }
    while i < stop
        invariant
            v@ == s@,
            n == v@.len(),
            stop <= n,
            i <= stop,
            total == encode_utf8(s@).len(),
            acc == encode_utf8(v@.take(i as int)).len(),
        decreases stop - i,
    {
        let w = char_width(v[i]);
        proof {
            assert(v@.take(i + 1) =~= v@.take(i as int) + seq![v@[i as int]]);
            lemma_encode_concat(v@.take(i as int), seq![v@[i as int]]);
            assert(v@ =~= v@.take(i + 1) + v@.skip(i + 1));
            lemma_encode_concat(v@.take(i + 1), v@.skip(i + 1));
        }
        acc = acc + w;
        i = i + 1;
    }
    proof {
        if ch_idx >= n {
            assert(v@.take(n as int) =~= v@);
        }
    }
    acc
}

/// The buffer after the display toggle: revealed when the codes were hidden,
/// hidden again when they were shown.
pub open spec fn toggled_text(text: Seq<char>, shown: bool) -> Seq<char> {
    if shown {
        hidden(text)
    } else {
        revealed(text)
    }
}

/// What is saved for editor text `text`: always the stored form of the
/// codes, never the revealed one.
pub open spec fn stored_text(text: Seq<char>, shown: bool) -> Seq<char> {
    if shown {
        hidden(text)
    } else {
        text
    }
}

/// The code that a colour button inserts, in the form the editor shows.
pub open spec fn color_insert(code: Seq<char>, shown: bool) -> Seq<char> {
    if shown {
        revealed(code)
    } else {
        code
    }
}

/// The code that ends a wrapped selection: back to the default colour.
pub open spec fn default_code(shown: bool) -> Seq<char> {
    if shown {
        seq!['^', '_', '7']
    } else {
        seq!['^', '7']
    }
}

/// A selection that a colour button wraps: non-empty and inside the text.
pub open spec fn selection_wraps(sel: Option<(usize, usize)>, len: int) -> bool {
    sel matches Some((s, e)) && s != e && e <= len
}

/// Where a colour code goes when nothing is wrapped: at the caret, clamped to
/// the text, or at the end when no caret is known.
pub open spec fn caret_offset(sel: Option<(usize, usize)>, len: int) -> int {
    match sel {
        Some((_, c)) => if c < len {
            c as int
        } else {
            len
        },
        None => len,
    }
}

/// The selection can be used on the text: a wrapped range is ordered and
/// both its ends are character boundaries; otherwise the caret offset is.
pub open spec fn selection_usable(text: Seq<char>, sel: Option<(usize, usize)>) -> bool {
    let b = encode_utf8(text);
    if selection_wraps(sel, b.len() as int) {
        let (s, e) = sel->0;
        s < e && is_char_boundary(b, s as int) && is_char_boundary(b, e as int)
    } else {
        is_char_boundary(b, caret_offset(sel, b.len() as int))
    }
}

/// The characters encoded by bytes `lo..hi` of `b`.
pub open spec fn byte_range_text(b: Seq<u8>, lo: int, hi: int) -> Seq<char> {
    decode_utf8(b.subrange(lo, hi))
}

/// The text after a colour button: the selection wrapped in the code and the
/// default code, or the code inserted at the caret.
pub open spec fn colored_text(
    text: Seq<char>,
    shown: bool,
    sel: Option<(usize, usize)>,
    code: Seq<char>,
) -> Seq<char> {
    let b = encode_utf8(text);
    let n = b.len() as int;
    let ins = color_insert(code, shown);
    if selection_wraps(sel, n) {
        let (s, e) = sel->0;
        byte_range_text(b, 0, s as int) + ins + byte_range_text(b, s as int, e as int)
            + default_code(shown) + byte_range_text(b, e as int, n)
    } else {
        let p = caret_offset(sel, n);
        byte_range_text(b, 0, p) + ins + byte_range_text(b, p, n)
    }
}

/// What is saved does not depend on whether the codes are shown: hiding them
/// again never changes the stored text, and showing them keeps it for notes
/// that hold no `^_` marker of their own.
pub proof fn lemma_toggle_keeps_stored_text(text: Seq<char>, shown: bool)
    requires
        !shown ==> !contains_seq(text, seq!['^', '_']),
    ensures
        stored_text(toggled_text(text, shown), !shown) == stored_text(text, shown),
{
    if !shown {
        lemma_hide_undoes_reveal(text);
    }
}

/// A piece of `s` cut at byte offsets decodes to those bytes.
proof fn lemma_piece_text(piece: Seq<char>, b: Seq<u8>, lo: int, hi: int)
    requires
        encode_utf8(piece) =~= b.subrange(lo, hi),
    ensures
        piece == byte_range_text(b, lo, hi),
{
    encode_utf8_decode_utf8(piece);
}

/// Byte offsets grow with the character index.
proof fn lemma_byte_offset_monotonic(s: Seq<char>, j: int, k: int)
    requires
        0 <= j <= k,
    ensures
        byte_offset(s, j) <= byte_offset(s, k),
{
    let kk = if k < s.len() { k } else { s.len() as int };
    let jj = if j < s.len() { j } else { s.len() as int };
    assert(s.take(kk) =~= s.take(jj) + s.take(kk).skip(jj));
    lemma_encode_concat(s.take(jj), s.take(kk).skip(jj));
    assert(s.take(s.len() as int) =~= s);
}

/// The notes editor: the buffer as the editor shows it, whether colour codes
/// are shown literally, and the byte range of the last selection.
pub struct NotesPanel {
    buffer: String,
    show_color_codes: bool,
    last_selection: Option<(usize, usize)>,
}

impl NotesPanel {
    /// The editor buffer.
    pub closed spec fn text(&self) -> Seq<char> {
        self.buffer@
    }

    /// Whether colour codes are shown literally.
    pub closed spec fn codes_shown(&self) -> bool {
        self.show_color_codes
    }

    /// Byte offsets of the last selection, in order.
    pub closed spec fn selection(&self) -> Option<(usize, usize)> {
        self.last_selection
    }

    /// A panel over the saved notes, with codes hidden and no selection.
    pub fn new(notes: String) -> (p: Self)
        ensures
            p.text() == notes@,
            !p.codes_shown(),
            p.selection() is None,
            selection_usable(p.text(), p.selection()),
    {
        proof {
            encode_utf8_valid_utf8(notes@);
            is_char_boundary_start_end_of_seq(encode_utf8(notes@));
        }
        NotesPanel { buffer: notes, show_color_codes: false, last_selection: None }
    }

    /// The editor buffer.
    pub fn buffer(&self) -> (r: &str)
        ensures
            r@ == self.text(),
    {
        self.buffer.as_str()
    }

    /// Whether colour codes are shown literally.
    pub fn shows_color_codes(&self) -> (r: bool)
        ensures
            r == self.codes_shown(),
    {
        self.show_color_codes
    }

    /// Replace the buffer with what the user typed.
    pub fn set_buffer(&mut self, text: String)
        ensures
            final(self).text() == text@,
            final(self).codes_shown() == old(self).codes_shown(),
            final(self).selection() == old(self).selection(),
    {
        self.buffer = text;
    }

    /// Flip between showing colour codes literally and hiding them, rewriting
    /// the buffer into the other form.
    pub fn toggle_color_codes(&mut self)
        ensures
            final(self).codes_shown() == !old(self).codes_shown(),
            final(self).text() == toggled_text(old(self).text(), old(self).codes_shown()),
            final(self).selection() == old(self).selection(),
    {
        self.show_color_codes = !self.show_color_codes;
        self.buffer = if self.show_color_codes {
            reveal_color_codes(self.buffer.as_str())
        } else {
            hide_color_codes(self.buffer.as_str())
        };
    }

    /// The text to save: the buffer with its codes in stored form.
    pub fn text_to_store(&self) -> (r: String)
        ensures
            r@ == stored_text(self.text(), self.codes_shown()),
    {
        if self.show_color_codes {
            hide_color_codes(self.buffer.as_str())
        } else {
            owned(self.buffer.as_str())
        }
    }

    /// Record the editor's selection, given as two character indices in
    /// either order, as the byte offsets of its ends.
    pub fn set_selection(&mut self, a: usize, b: usize)
        ensures
            final(self).selection() == Some(
                if a <= b {
                    (
                        byte_offset(old(self).text(), a as int) as usize,
                        byte_offset(old(self).text(), b as int) as usize,
                    )
                } else {
                    (
                        byte_offset(old(self).text(), b as int) as usize,
                        byte_offset(old(self).text(), a as int) as usize,
                    )
                },
            ),
            final(self).text() == old(self).text(),
            final(self).codes_shown() == old(self).codes_shown(),
            selection_usable(final(self).text(), final(self).selection()),
    {
        let (start, end) = if a <= b {
            (a, b)
        } else {
            (b, a)
        };
        let s = char_index_to_byte(self.buffer.as_str(), start);
        let e = char_index_to_byte(self.buffer.as_str(), end);
        proof {
            let t = self.buffer@;
            lemma_byte_offset_is_boundary(t, start as int);
            lemma_byte_offset_is_boundary(t, end as int);
            lemma_byte_offset_monotonic(t, start as int, end as int);
        }
        self.last_selection = Some((s, e));
    }
    /// Whether the recorded selection can be used on the buffer, as
    /// `apply_color` needs.
    pub fn selection_fits(&self) -> (r: bool)
        ensures
            r == selection_usable(self.text(), self.selection()),
    {
        let buf = self.buffer.as_str();
        let len = buf.as_bytes().len();
        match self.last_selection {
            Some((s, e)) => {
                if s != e && e <= len {
                    s < e && buf.is_char_boundary(s) && buf.is_char_boundary(e)
                } else {
                    let c = if e < len {
                        e
                    } else {
                        len
                    };
                    buf.is_char_boundary(c)
                }
            },
            None => buf.is_char_boundary(len),
        }
    }

    /// Colour button: wrap a non-empty selection in `code` and the default
    /// code, or insert `code` at the caret (at the end when there is none).
    /// The code goes in in the form the editor currently shows.
    pub fn apply_color(&mut self, code: &str)
        requires
            selection_usable(old(self).text(), old(self).selection()),
        ensures
            final(self).text() == colored_text(
                old(self).text(),
                old(self).codes_shown(),
                old(self).selection(),
                code@,
            ),
            final(self).codes_shown() == old(self).codes_shown(),
            final(self).selection() == old(self).selection(),
    {
        let insert: String = if self.show_color_codes {
            reveal_color_codes(code)
        } else {
            owned(code)
        };
        let ghost b = encode_utf8(self.buffer@);
        let ghost n = b.len() as int;
        proof {
            encode_utf8_valid_utf8(self.buffer@);
        }
        let len = self.buffer.as_str().as_bytes().len();
        let wrap = match self.last_selection {
            Some((s, e)) => s != e && e <= len,
            None => false,
        };
        if wrap {
            let (start, end) = match self.last_selection {
                Some(p) => p,
                None => (0, 0),
            };
            let default: &str = if self.show_color_codes {
                "^_7"
            } else {
                "^7"
            };
            proof {
                reveal_strlit("^_7");
                reveal_strlit("^7");
            }
            let buf = self.buffer.as_str();
            let (pre, q) = buf.split_at(end);
            proof {
                encode_utf8_valid_utf8(pre@);
                is_char_boundary_iff_not_is_continuation_byte(b, start as int);
                is_char_boundary_iff_not_is_continuation_byte(encode_utf8(pre@), start as int);
            }
            let (p, mid) = pre.split_at(start);
            let mut out = String::new();
            out.push_str(p);
            out.push_str(insert.as_str());
            out.push_str(mid);
            out.push_str(default);
            out.push_str(q);
            proof {
                lemma_piece_text(p@, b, 0, start as int);
                lemma_piece_text(mid@, b, start as int, end as int);
                lemma_piece_text(q@, b, end as int, n);
            }
            self.buffer = out;
        } else {
            let pos = match self.last_selection {
                Some((_, c)) => if c < len {
                    c
                } else {
                    len
                },
                None => len,
            };
            let buf = self.buffer.as_str();
            let (p, q) = buf.split_at(pos);
            let mut out = String::new();
            out.push_str(p);
            out.push_str(insert.as_str());
            out.push_str(q);
            proof {
                lemma_piece_text(p@, b, 0, pos as int);
                lemma_piece_text(q@, b, pos as int, n);
            }
            self.buffer = out;
        }
    }
}

} // verus!
