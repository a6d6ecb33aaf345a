//! Path of Building colour escapes in text: `^0`-`^9` select a palette
//! colour and `^xRRGGBB` an explicit one.
//!
//! The scanners read the text character by character: an escape is made of
//! ASCII characters only, and every other character is kept as it is.

use vstd::prelude::*;
use crate::text::{chars_of, contains_seq, occurs_at, string_of, sub_chars};

verus! {

/// An ASCII decimal digit.
pub open spec fn is_digit_ch(c: char) -> bool {
    '0' <= c && c <= '9'
}

/// An ASCII hexadecimal digit.
pub open spec fn is_hex_ch(c: char) -> bool {
    is_digit_ch(c) || ('a' <= c && c <= 'f') || ('A' <= c && c <= 'F')
}

/// Every character of `s` is a hexadecimal digit.
pub open spec fn all_hex(s: Seq<char>) -> bool {
    forall|k: int| 0 <= k < s.len() ==> is_hex_ch(#[trigger] s[k])
}

/// Whether a colour escape `^N` starts `s`.
pub open spec fn digit_code(s: Seq<char>) -> bool {
    s.len() >= 2 && s[0] == '^' && is_digit_ch(s[1])
}

/// Whether a colour escape `^xRRGGBB` starts `s`.
pub open spec fn hex_code(s: Seq<char>) -> bool {
    s.len() >= 8 && s[0] == '^' && s[1] == 'x' && all_hex(s.subrange(2, 8))
}

/// Whether an editor-form escape `^_N` starts `s`.
pub open spec fn shown_digit_code(s: Seq<char>) -> bool {
    s.len() >= 3 && s[0] == '^' && s[1] == '_' && is_digit_ch(s[2])
}

/// Whether an editor-form escape `^_xRRGGBB` starts `s`.
pub open spec fn shown_hex_code(s: Seq<char>) -> bool {
    s.len() >= 9 && s[0] == '^' && s[1] == '_' && s[2] == 'x' && all_hex(s.subrange(3, 9))
}

/// `s` with its colour escapes removed.
pub open spec fn strip_codes(s: Seq<char>) -> Seq<char>
    decreases s.len(),
{
    if s.len() == 0 {
        seq![]
    } else if digit_code(s) {
        strip_codes(s.skip(2))
    } else if hex_code(s) {
        strip_codes(s.skip(8))
    } else {
        seq![s[0]] + strip_codes(s.skip(1))
    }
}

/// The editor form of `s`: each escape gets a `_` after its caret
/// (`^x` becomes `^_x`, `^N` becomes `^_N`) so that it shows literally.
pub open spec fn reveal_codes(s: Seq<char>) -> Seq<char>
    decreases s.len(),
{
    if s.len() == 0 {
        seq![]
    } else if hex_code(s) {
        seq!['^', '_', 'x'] + s.subrange(2, 8) + reveal_codes(s.skip(8))
    } else if digit_code(s) {
        seq!['^', '_', s[1]] + reveal_codes(s.skip(2))
    } else {
        seq![s[0]] + reveal_codes(s.skip(1))
    }
}

/// The stored form of editor text `s`: `^_x` becomes `^x` and `^_N` becomes `^N`.
pub open spec fn hide_codes(s: Seq<char>) -> Seq<char>
    decreases s.len(),
{
    if s.len() == 0 {
        seq![]
    } else if shown_hex_code(s) {
        seq!['^', 'x'] + s.subrange(3, 9) + hide_codes(s.skip(9))
    } else if shown_digit_code(s) {
        seq!['^', s[2]] + hide_codes(s.skip(3))
    } else {
        seq![s[0]] + hide_codes(s.skip(1))
    }
}

/// Only colour escapes go: text without a `^` is left as it is by stripping,
/// revealing and hiding, and stripping never lengthens text.
pub proof fn lemma_caretless_text_unchanged(s: Seq<char>)
    ensures
        !s.contains('^') ==> strip_codes(s) == s && reveal_codes(s) == s && hide_codes(s) == s,
        strip_codes(s).len() <= s.len(),
    decreases s.len(),
{
    if s.len() > 0 {
        if !s.contains('^') {
            assert(s[0] != '^');
            assert(!s.skip(1).contains('^')) by {
                if s.skip(1).contains('^') {
                    let k = choose|k: int| 0 <= k < s.skip(1).len() && s.skip(1)[k] == '^';
                    assert(s[k + 1] == '^');
                }
            }
        }
        lemma_caretless_text_unchanged(s.skip(1));
        if digit_code(s) {
            lemma_caretless_text_unchanged(s.skip(2));
        }
        if hex_code(s) {
            lemma_caretless_text_unchanged(s.skip(8));
        }
        assert(s =~= seq![s[0]] + s.skip(1));
    }
}

/// `text` without its colour escapes.
pub open spec fn stripped(text: Seq<char>) -> Seq<char> {
    strip_codes(text)
}

/// The editor form of `text`.
pub open spec fn revealed(text: Seq<char>) -> Seq<char> {
    reveal_codes(text)
}

/// The stored form of editor text `text`.
pub open spec fn hidden(text: Seq<char>) -> Seq<char> {
    hide_codes(text)
}

fn is_digit(c: char) -> (r: bool)
    ensures
        r == is_digit_ch(c),
{
    '0' <= c && c <= '9'
}

fn is_hex(c: char) -> (r: bool)
    ensures
        r == is_hex_ch(c),
{
    ('0' <= c && c <= '9') || ('a' <= c && c <= 'f') || ('A' <= c && c <= 'F')
}

/// Whether `c[lo..hi]` holds only hexadecimal digits.
fn hex_run(c: &[char], lo: usize, hi: usize) -> (r: bool)
    requires
        lo <= hi <= c@.len(),
    ensures
        r == all_hex(c@.subrange(lo as int, hi as int)),
{
    let mut k = lo;
    while k < hi
        invariant
            lo <= k <= hi <= c@.len(),
            forall|j: int| lo <= j < k ==> is_hex_ch(#[trigger] c@[j]),
        decreases hi - k,
    {
        if !is_hex(c[k]) {
            assert(!is_hex_ch(c@.subrange(lo as int, hi as int)[k - lo]));
            return false;
        }
        k = k + 1;
    }
    assert forall|j: int| 0 <= j < hi - lo implies is_hex_ch(
        #[trigger] c@.subrange(lo as int, hi as int)[j],
    ) by {
        assert(c@.subrange(lo as int, hi as int)[j] == c@[lo + j]);
    }
    true
}

proof fn lemma_skip_facts(s: Seq<char>, i: int)
    requires
        0 <= i < s.len(),
    ensures
        s.skip(i).len() == s.len() - i,
        forall|j: int| 0 <= j < s.len() - i ==> #[trigger] s.skip(i)[j] == s[i + j],
        forall|k: int| 0 <= k <= s.len() - i ==> #[trigger] s.skip(i).skip(k) == s.skip(i + k),
        i + 8 <= s.len() ==> s.skip(i).subrange(2, 8) == s.subrange(i + 2, i + 8),
        i + 9 <= s.len() ==> s.skip(i).subrange(3, 9) == s.subrange(i + 3, i + 9),
{
    assert forall|k: int| 0 <= k <= s.len() - i implies #[trigger] s.skip(i).skip(k) == s.skip(
        i + k,
    ) by {
        assert(s.skip(i).skip(k) =~= s.skip(i + k));
    }
    if i + 8 <= s.len() {
        assert(s.skip(i).subrange(2, 8) =~= s.subrange(i + 2, i + 8));
    }
    if i + 9 <= s.len() {
        assert(s.skip(i).subrange(3, 9) =~= s.subrange(i + 3, i + 9));
    }
}

/// Strip Path of Building colour escapes (`^0`-`^9` and `^xRRGGBB`) from text.
pub fn strip_escapes(text: &str) -> (r: String)
    ensures
        r@ == stripped(text@),
{
    let c = chars_of(text);
    let n = c.len();
    let mut result = String::new();
    let mut i: usize = 0;
    assert(c@.skip(0) == c@);
    while i < n
        invariant
            i <= n == c@.len(),
            c@ == text@,
            strip_codes(c@) == result@ + strip_codes(c@.skip(i as int)),
        decreases n - i,
    {
        proof {
            lemma_skip_facts(c@, i as int);
        }
        if c[i] == '^' && n - i > 1 {
            let next = c[i + 1];
            if is_digit(next) {
                i = i + 2;
                continue;
            } else if next == 'x' && n - i >= 8 {
                if hex_run(&c, i + 2, i + 8) {
                    i = i + 8;
                    continue;
                }
            }
        }
        result.push(c[i]);
        i = i + 1;
    }
    assert(c@.skip(n as int) == Seq::<char>::empty());
    result
}

/// Convert stored colour codes into a visible form: `^x` → `^_x`, `^N` → `^_N`.
/// This lets users see the codes literally in the editor.
pub fn reveal_color_codes(s: &str) -> (r: String)
    ensures
        r@ == revealed(s@),
{
    let c = chars_of(s);
    let n = c.len();
    let mut out = String::new();
    let mut i: usize = 0;
    assert(c@.skip(0) == c@);
    while i < n
        invariant
            i <= n == c@.len(),
            c@ == s@,
            reveal_codes(c@) == out@ + reveal_codes(c@.skip(i as int)),
        decreases n - i,
    {
        proof {
            lemma_skip_facts(c@, i as int);
        }
        if c[i] == '^' && n - i > 1 {
            let next = c[i + 1];
            if next == 'x' && n - i >= 8 && hex_run(&c, i + 2, i + 8) {
                out.push('^');
                out.push('_');
                out.push('x');
                out.push_str(string_of(&sub_chars(&c, i + 2, i + 8)).as_str());
                i = i + 8;
                continue;
            } else if is_digit(next) {
                out.push('^');
                out.push('_');
                out.push(next);
                i = i + 2;
                continue;
            }
        }
        out.push(c[i]);
        i = i + 1;
    }
    assert(c@.skip(n as int) == Seq::<char>::empty());
    out
}

/// Inverse of `reveal_color_codes`: `^_x` → `^x`, `^_N` → `^N`.
pub fn hide_color_codes(s: &str) -> (r: String)
    ensures
        r@ == hidden(s@),
{
    let c = chars_of(s);
    let n = c.len();
    let mut out = String::new();
    let mut i: usize = 0;
    assert(c@.skip(0) == c@);
    while i < n
        invariant
            i <= n == c@.len(),
            c@ == s@,
            hide_codes(c@) == out@ + hide_codes(c@.skip(i as int)),
        decreases n - i,
    {
        proof {
            lemma_skip_facts(c@, i as int);
        }
        if c[i] == '^' && n - i > 2 && c[i + 1] == '_' {
            let third = c[i + 2];
            if third == 'x' && n - i >= 9 && hex_run(&c, i + 3, i + 9) {
                out.push('^');
                out.push('x');
                out.push_str(string_of(&sub_chars(&c, i + 3, i + 9)).as_str());
                i = i + 9;
                continue;
            } else if is_digit(third) {
                out.push('^');
                out.push(third);
                i = i + 3;
                continue;
            }
        }
        out.push(c[i]);
        i = i + 1;
    }
    assert(c@.skip(n as int) == Seq::<char>::empty());
    out
}

/// Text without `^_` keeps having none when its start is cut off.
proof fn lemma_no_marker_skip(s: Seq<char>, k: int)
    requires
        0 <= k <= s.len(),
        !contains_seq(s, seq!['^', '_']),
    ensures
        !contains_seq(s.skip(k), seq!['^', '_']),
{
    if contains_seq(s.skip(k), seq!['^', '_']) {
        let j = choose|j: int| occurs_at(s.skip(k), seq!['^', '_'], j);
        assert(s.skip(k).subrange(j, j + 2) =~= s.subrange(j + k, j + k + 2));
        assert(occurs_at(s, seq!['^', '_'], j + k));
    }
}

/// The editor form of non-empty text starts with a caret or with the
/// text's own first character.
proof fn lemma_reveal_first(s: Seq<char>)
    requires
        s.len() > 0,
    ensures
        reveal_codes(s).len() > 0,
        reveal_codes(s)[0] == '^' || reveal_codes(s)[0] == s[0],
{
}

/// `hide_color_codes` undoes `reveal_color_codes`: on text that does not
/// already hold a `^_` marker, hiding the revealed form gives the text back.
pub proof fn lemma_hide_undoes_reveal(s: Seq<char>)
    requires
        !contains_seq(s, seq!['^', '_']),
    ensures
        hidden(revealed(s)) == s,
    decreases s.len(),
{
    if s.len() > 0 {
        let r = reveal_codes(s);
        if hex_code(s) {
            let rest = s.skip(8);
            lemma_no_marker_skip(s, 8);
            lemma_hide_undoes_reveal(rest);
            let head = seq!['^', '_', 'x'] + s.subrange(2, 8);
            assert(r == head + reveal_codes(rest));
            assert(r.subrange(3, 9) =~= s.subrange(2, 8));
            assert(shown_hex_code(r));
            assert(r.skip(9) =~= reveal_codes(rest));
            assert(hide_codes(r) == seq!['^', 'x'] + r.subrange(3, 9) + hide_codes(r.skip(9)));
            assert(s =~= seq!['^', 'x'] + s.subrange(2, 8) + rest);
        } else if digit_code(s) {
            let rest = s.skip(2);
            lemma_no_marker_skip(s, 2);
            lemma_hide_undoes_reveal(rest);
            assert(r == seq!['^', '_', s[1]] + reveal_codes(rest));
            assert(!shown_hex_code(r));
            assert(shown_digit_code(r));
            assert(r.skip(3) =~= reveal_codes(rest));
            assert(s =~= seq!['^', s[1]] + rest);
        } else {
            let rest = s.skip(1);
            lemma_no_marker_skip(s, 1);
            lemma_hide_undoes_reveal(rest);
            assert(r == seq![s[0]] + reveal_codes(rest));
            if s[0] == '^' && r.len() >= 3 {
                lemma_reveal_first(rest);
                assert(r[1] == reveal_codes(rest)[0]);
                if rest[0] == '_' {
                    assert(s.subrange(0, 2) =~= seq!['^', '_']);
                    assert(occurs_at(s, seq!['^', '_'], 0));
                }
                assert(r[1] != '_');
            }
            assert(!shown_hex_code(r));
            assert(!shown_digit_code(r));
            assert(r.skip(1) =~= reveal_codes(rest));
            assert(s =~= seq![s[0]] + rest);
        }
    }
}

} // verus!
