//! Splitting colour-coded text into runs of one colour.

use vstd::prelude::*;
use crate::text::{
    chars_of, contains_seq, hex_byte_value, occurs_at, parse_hex_byte, string_of, sub_chars,
};
use crate::color_codes::{all_hex, is_hex_ch, strip_codes, stripped};

verus! {

/// An opaque colour given by its red, green and blue components.
#[derive(Clone, Copy, PartialEq, Eq, Structural, Debug)]
pub struct Rgb {
    pub r: u8,
    pub g: u8,
    pub b: u8,
}

impl Rgb {
    /// The colour with the given components.
    pub fn new(r: u8, g: u8, b: u8) -> (c: Rgb)
        ensures
            c == (Rgb { r, g, b }),
    {
        Rgb { r, g, b }
    }
}

/// The `^0`-`^9` palette: black, red, green, blue, yellow, purple, aqua,
/// white, gray and dark gray.
pub open spec fn palette(d: int) -> Rgb {
    if d == 0 {
        Rgb { r: 0, g: 0, b: 0 }
    } else if d == 1 {
        Rgb { r: 255, g: 0, b: 0 }
    } else if d == 2 {
        Rgb { r: 0, g: 255, b: 0 }
    } else if d == 3 {
        Rgb { r: 0, g: 0, b: 255 }
    } else if d == 4 {
        Rgb { r: 255, g: 255, b: 0 }
    } else if d == 5 {
        Rgb { r: 255, g: 0, b: 255 }
    } else if d == 6 {
        Rgb { r: 0, g: 255, b: 255 }
    } else if d == 7 {
        Rgb { r: 255, g: 255, b: 255 }
    } else if d == 8 {
        Rgb { r: 160, g: 160, b: 160 }
    } else {
        Rgb { r: 96, g: 96, b: 96 }
    }
}

fn palette_color(c: char) -> (rgb: Rgb)
    requires
        '0' <= c <= '9',
    ensures
        rgb == palette(c as int - '0' as int),
{
    if c == '0' {
        Rgb { r: 0, g: 0, b: 0 }
    } else if c == '1' {
        Rgb { r: 255, g: 0, b: 0 }
    } else if c == '2' {
        Rgb { r: 0, g: 255, b: 0 }
    } else if c == '3' {
        Rgb { r: 0, g: 0, b: 255 }
    } else if c == '4' {
        Rgb { r: 255, g: 255, b: 0 }
    } else if c == '5' {
        Rgb { r: 255, g: 0, b: 255 }
    } else if c == '6' {
        Rgb { r: 0, g: 255, b: 255 }
    } else if c == '7' {
        Rgb { r: 255, g: 255, b: 255 }
    } else if c == '8' {
        Rgb { r: 160, g: 160, b: 160 }
    } else {
        Rgb { r: 96, g: 96, b: 96 }
    }
}

/// The colour spelled by the six characters `h` after `^x`: three pairs of
/// hexadecimal digits; `None` when any of them is not one.
pub open spec fn hex_color(h: Seq<char>) -> Option<Rgb> {
    match (
        hex_byte_value(h.subrange(0, 2)),
        hex_byte_value(h.subrange(2, 4)),
        hex_byte_value(h.subrange(4, 6)),
    ) {
        (Some(r), Some(g), Some(b)) => Some(Rgb { r, g, b }),
        _ => None,
    }
}

/// An ASCII decimal digit.
pub open spec fn is_digit_char(c: char) -> bool {
    '0' <= c && c <= '9'
}

/// The length of the colour escape at the start of `c`, or 0 where none
/// starts there.
pub open spec fn code_len(c: Seq<char>) -> nat {
    if c.len() >= 2 && c[0] == '^' && is_digit_char(c[1]) {
        2
    } else if c.len() >= 8 && c[0] == '^' && (c[1] == 'x' || c[1] == 'X') && hex_color(
        c.subrange(2, 8),
    ) is Some {
        8
    } else {
        0
    }
}

/// The colour that the escape at the start of `c` selects.
pub open spec fn code_color(c: Seq<char>) -> Rgb {
    if code_len(c) == 2 {
        palette(c[1] as int - '0' as int)
    } else {
        hex_color(c.subrange(2, 8))->Some_0
    }
}

/// The run `(color, cur)`, if it holds any text.
pub open spec fn flush(color: Rgb, cur: Seq<char>) -> Seq<(Rgb, Seq<char>)> {
    if cur.len() > 0 {
        seq![(color, cur)]
    } else {
        seq![]
    }
}

/// The runs of `c`, read with `color` current and `cur` already collected.
pub open spec fn color_runs(c: Seq<char>, color: Rgb, cur: Seq<char>) -> Seq<(Rgb, Seq<char>)>
    decreases c.len(),
{
    if c.len() == 0 {
        flush(color, cur)
    } else if code_len(c) > 0 {
        flush(color, cur) + color_runs(c.skip(code_len(c) as int), code_color(c), seq![])
    } else {
        color_runs(c.skip(1), color, cur.push(c[0]))
    }
}

/// Each run with its text as characters.
pub open spec fn runs_view(v: Seq<(Rgb, String)>) -> Seq<(Rgb, Seq<char>)> {
    v.map_values(|p: (Rgb, String)| (p.0, p.1@))
}

/// The colour spelled by `h[lo..lo + 6]`.
fn hex_triplet(h: &[char], lo: usize) -> (r: Option<Rgb>)
    requires
        lo + 6 <= h@.len(),
    ensures
        r == hex_color(h@.subrange(lo as int, lo + 6)),
{
    let ghost hs = h@.subrange(lo as int, lo + 6);
    let _n = h.len();
    let p0 = string_of(&sub_chars(h, lo, lo + 2));
    let p1 = string_of(&sub_chars(h, lo + 2, lo + 4));
    let p2 = string_of(&sub_chars(h, lo + 4, lo + 6));
    assert(p0@ =~= hs.subrange(0, 2));
    assert(p1@ =~= hs.subrange(2, 4));
    assert(p2@ =~= hs.subrange(4, 6));
    let r = parse_hex_byte(p0.as_str());
    let g = parse_hex_byte(p1.as_str());
    let b = parse_hex_byte(p2.as_str());
    match (r, g, b) {
        (Some(r), Some(g), Some(b)) => Some(Rgb { r, g, b }),
        _ => None,
    }
}

proof fn lemma_runs_step(c: Seq<char>, i: int, color: Rgb, cur: Seq<char>)
    requires
        0 <= i < c.len(),
    ensures
        c.skip(i)[0] == c[i],
        c.skip(i).len() >= 2 ==> c.skip(i)[1] == c[i + 1],
        c.skip(i).len() >= 8 ==> c.skip(i).subrange(2, 8) == c.subrange(i + 2, i + 8),
        code_len(c.skip(i)) > 0 ==> color_runs(c.skip(i), color, cur) == flush(color, cur)
            + color_runs(c.skip(i + code_len(c.skip(i))), code_color(c.skip(i)), seq![]),
        code_len(c.skip(i)) == 0 ==> color_runs(c.skip(i), color, cur) == color_runs(
            c.skip(i + 1),
            color,
            cur.push(c[i]),
        ),
{
    let rest = c.skip(i);
    assert(rest.skip(1) == c.skip(i + 1));
    if rest.len() >= 2 {
        assert(rest.skip(2) == c.skip(i + 2));
    }
    if rest.len() >= 8 {
        assert(rest.subrange(2, 8) == c.subrange(i + 2, i + 8));
        assert(rest.skip(8) == c.skip(i + 8));
    }
}

/// Parse a Path of Building colour-coded string (`^xRRGGBB` and `^0`-`^9`
/// escapes) into (colour, text) runs. Codes with no following text are dropped.
pub fn parse_pob_colors(text: &str, default: Rgb) -> (runs: Vec<(Rgb, String)>)
    ensures
        runs_view(runs@) == color_runs(text@, default, seq![]),
{
    let chars = chars_of(text);
    let n = chars.len();
    let mut runs: Vec<(Rgb, String)> = Vec::new();
    let mut color = default;
    let mut current: Vec<char> = Vec::new();
    let mut i: usize = 0;
    assert(chars@.skip(0) == chars@);
    assert(runs_view(runs@) =~= Seq::<(Rgb, Seq<char>)>::empty());
    while i < n
        invariant
            i <= n == chars@.len(),
            chars@ == text@,
            color_runs(text@, default, seq![]) == runs_view(runs@) + color_runs(
                chars@.skip(i as int),
                color,
                current@,
            ),
        decreases n - i,
    {
        let ghost rest = chars@.skip(i as int);
        proof {
            lemma_runs_step(chars@, i as int, color, current@);
        }
        if chars[i] == '^' && n - i > 1 {
            let next = chars[i + 1];
            let mut found: Option<Rgb> = None;
            let mut adv: usize = 0;
            if '0' <= next && next <= '9' {
                found = Some(palette_color(next));
                adv = 2;
            } else if (next == 'x' || next == 'X') && n - i >= 8 {
                found = hex_triplet(&chars, i + 2);
                adv = 8;
            }
            if let Some(nc) = found {
                assert(code_len(rest) == adv && code_color(rest) == nc);
                let ghost before = runs_view(runs@);
                if current.len() > 0 {
                    let s = string_of(&current);
                    runs.push((color, s));
                    assert(runs_view(runs@) =~= before.push((color, current@)));
                    current = Vec::new();
                } else {
                    assert(current@ =~= Seq::<char>::empty());
                }
                color = nc;
                i = i + adv;
                continue;
            }
        }
        assert(code_len(rest) == 0);
        current.push(chars[i]);
        i = i + 1;
    }
    assert(chars@.skip(n as int) =~= Seq::<char>::empty());
    if current.len() > 0 {
        let ghost before = runs_view(runs@);
        let s = string_of(&current);
        runs.push((color, s));
        assert(runs_view(runs@) =~= before.push((color, current@)));
    } else {
        assert(runs_view(runs@) + flush(color, current@) =~= runs_view(runs@));
    }
    runs
}

/// Every run of colour-coded text holds some text: an escape with no text
/// after it before the next escape (or the end) leaves no run behind.
pub proof fn lemma_runs_nonempty(c: Seq<char>, color: Rgb, cur: Seq<char>)
    ensures
        forall|k: int|
            0 <= k < color_runs(c, color, cur).len() ==> (#[trigger] color_runs(c, color, cur)[k]).1.len()
                > 0,
    decreases c.len(),
{
    if c.len() == 0 {
        assert(color_runs(c, color, cur) == flush(color, cur));
        if cur.len() > 0 {
            assert(flush(color, cur)[0].1 == cur);
        }
    } else if code_len(c) > 0 {
        lemma_runs_nonempty(c.skip(code_len(c) as int), code_color(c), seq![]);
        let rest = color_runs(c.skip(code_len(c) as int), code_color(c), seq![]);
        assert forall|k: int|
            0 <= k < color_runs(c, color, cur).len() implies (#[trigger] color_runs(
            c,
            color,
            cur,
        )[k]).1.len() > 0 by {
            let f = flush(color, cur);
            assert(color_runs(c, color, cur) == f + rest);
            if k >= f.len() {
                assert(color_runs(c, color, cur)[k] == rest[k - f.len()]);
            }
        }
    } else {
        lemma_runs_nonempty(c.skip(1), color, cur.push(c[0]));
        assert(color_runs(c, color, cur) == color_runs(c.skip(1), color, cur.push(c[0])));
    }
}

/// The text of `runs`, run after run.
pub open spec fn runs_text(runs: Seq<(Rgb, Seq<char>)>) -> Seq<char>
    decreases runs.len(),
{
    if runs.len() == 0 {
        seq![]
    } else {
        runs_text(runs.drop_last()) + runs.last().1
    }
}

proof fn lemma_runs_text_concat(a: Seq<(Rgb, Seq<char>)>, b: Seq<(Rgb, Seq<char>)>)
    ensures
        runs_text(a + b) == runs_text(a) + runs_text(b),
    decreases b.len(),
{
    if b.len() == 0 {
        assert(a + b =~= a);
        assert(runs_text(a) + runs_text(b) =~= runs_text(a));
    } else {
        assert((a + b).drop_last() =~= a + b.drop_last());
        assert((a + b).last() == b.last());
        lemma_runs_text_concat(a, b.drop_last());
        assert(runs_text(a) + runs_text(b) =~= runs_text(a) + runs_text(b.drop_last()) + b.last().1);
    }
}

proof fn lemma_runs_text_flush(color: Rgb, cur: Seq<char>)
    ensures
        runs_text(flush(color, cur)) == cur,
{
    let f = flush(color, cur);
    if cur.len() > 0 {
        assert(f.drop_last() =~= Seq::<(Rgb, Seq<char>)>::empty());
        assert(runs_text(f.drop_last()) =~= Seq::<char>::empty());
        assert(f.last().1 == cur);
        assert(runs_text(f) =~= cur);
    } else {
        assert(cur =~= Seq::<char>::empty());
    }
}

/// Two characters read as a hexadecimal byte exactly when both are
/// hexadecimal digits.
proof fn lemma_hex_pair(x: char, y: char)
    ensures
        hex_byte_value(seq![x, y]) is Some <==> is_hex_ch(x) && is_hex_ch(y),
{
    assert(seq![x, y][0] == x && seq![x, y][1] == y);
}

/// The six characters after `^x` spell a colour exactly when they are
/// hexadecimal digits.
proof fn lemma_hex_color(h: Seq<char>)
    requires
        h.len() == 6,
    ensures
        hex_color(h) is Some <==> all_hex(h),
{
    assert(h.subrange(0, 2) =~= seq![h[0], h[1]]);
    assert(h.subrange(2, 4) =~= seq![h[2], h[3]]);
    assert(h.subrange(4, 6) =~= seq![h[4], h[5]]);
    lemma_hex_pair(h[0], h[1]);
    lemma_hex_pair(h[2], h[3]);
    lemma_hex_pair(h[4], h[5]);
    if all_hex(h) {
        assert(is_hex_ch(h[0]) && is_hex_ch(h[1]) && is_hex_ch(h[2]));
        assert(is_hex_ch(h[3]) && is_hex_ch(h[4]) && is_hex_ch(h[5]));
    }
}

/// The text on which both readings of colour codes agree.
pub open spec fn plain_readable(s: Seq<char>) -> bool {
    !contains_seq(s, seq!['^', 'X'])
}

proof fn lemma_runs_strip(c: Seq<char>, color: Rgb, cur: Seq<char>)
    requires
        plain_readable(c),
    ensures
        runs_text(color_runs(c, color, cur)) == cur + strip_codes(c),
    decreases c.len(),
{
    if c.len() == 0 {
        lemma_runs_text_flush(color, cur);
        assert(cur + strip_codes(c) =~= cur);
    } else {
        if c.len() >= 2 {
            if c[0] == '^' && c[1] == 'X' {
                assert(occurs_at(c, seq!['^', 'X'], 0)) by {
                    assert(c.subrange(0, 2) =~= seq!['^', 'X']);
                }
            }
        }
        if c.len() >= 8 {
            lemma_hex_color(c.subrange(2, 8));
        }
        let n = code_len(c) as int;
        let step = if n > 0 { n } else { 1 };
        let rest = c.skip(step);
        assert(plain_readable(rest)) by {
            if contains_seq(rest, seq!['^', 'X']) {
                let k = choose|k: int| occurs_at(rest, seq!['^', 'X'], k);
                assert(rest.subrange(k, k + 2) =~= c.subrange(k + step, k + step + 2));
                assert(occurs_at(c, seq!['^', 'X'], k + step));
            }
        }
        if n > 0 {
            lemma_runs_strip(rest, code_color(c), seq![]);
            lemma_runs_text_concat(flush(color, cur), color_runs(rest, code_color(c), seq![]));
            lemma_runs_text_flush(color, cur);
            assert(seq![] + strip_codes(rest) =~= strip_codes(rest));
        } else {
            lemma_runs_strip(rest, color, cur.push(c[0]));
            assert(cur.push(c[0]) + strip_codes(rest) =~= cur + (seq![c[0]] + strip_codes(rest)));
        }
    }
}

/// Both readings of colour codes agree: on text without an upper-case `^X`
/// escape, the plain text of the colour runs is exactly what
/// `strip_escapes` leaves.
pub proof fn lemma_runs_text_is_stripped(s: Seq<char>, color: Rgb)
    requires
        plain_readable(s),
    ensures
        runs_text(color_runs(s, color, seq![])) == stripped(s),
{
    lemma_runs_strip(s, color, seq![]);
    assert(seq![] + strip_codes(s) =~= strip_codes(s));
}

/// The plain text of a colour-coded status message, and whether it reports an
/// error (its plain text mentions `Error`).
pub fn plain_status(status: &str) -> (r: (String, bool))
    ensures
        r.0@ == runs_text(color_runs(status@, Rgb { r: 255, g: 255, b: 255 }, seq![])),
        r.1 == crate::text::contains_seq(r.0@, "Error"@),
{
    let runs = parse_pob_colors(status, Rgb { r: 255, g: 255, b: 255 });
    let mut plain = String::new();
    let mut k: usize = 0;
    while k < runs.len()
        invariant
            k <= runs@.len(),
            plain@ == runs_text(runs_view(runs@).take(k as int)),
        decreases runs@.len() - k,
    {
        plain.push_str(runs[k].1.as_str());
        k = k + 1;
        assert(runs_view(runs@).take(k as int).drop_last() == runs_view(runs@).take(k - 1));
    }
    assert(runs_view(runs@).take(runs@.len() as int) == runs_view(runs@));
    let pc = chars_of(plain.as_str());
    let needle = chars_of("Error");
    let is_error = crate::text::contains(&pc, &needle);
    (plain, is_error)
}

} // verus!
