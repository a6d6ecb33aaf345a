//! Turning what the build scripts report into list selections: 1-based
//! indices, class and ascendancy positions, leagues and the character level.

use vstd::prelude::*;
use crate::text::{decimal, decimal_u32_value, digit_char, digit_value, digits_value, parse_u32};

verus! {

/// The 0-based position selected by a 1-based `lua_index` in a list of
/// `len` entries, kept inside the list (0 for an empty one).
pub open spec fn selection_of(lua_index: int, len: int) -> int {
    let want = if lua_index >= 1 {
        lua_index - 1
    } else {
        0
    };
    let last = if len >= 1 {
        len - 1
    } else {
        0
    };
    if want < last {
        want
    } else {
        last
    }
}

/// The 0-based list position for a 1-based index reported by the scripts.
pub fn lua_selection(lua_index: usize, len: usize) -> (r: usize)
    ensures
        r == selection_of(lua_index as int, len as int),
{
    let want = if lua_index >= 1 {
        lua_index - 1
    } else {
        0
    };
    let last = if len >= 1 {
        len - 1
    } else {
        0
    };
    if want < last {
        want
    } else {
        last
    }
}

/// An ascendancy of a class.
pub struct AscendEntry {
    pub ascend_class_id: u32,
    pub name: String,
}

/// A class with its ascendancies.
pub struct ClassEntry {
    pub class_id: u32,
    pub name: String,
    pub ascendancies: Vec<AscendEntry>,
}

/// The first position, from `k` on, of the class with id `id`.
pub open spec fn class_position(classes: Seq<ClassEntry>, id: u32, k: int) -> Option<int>
    decreases classes.len() - k,
{
    if k < 0 || k >= classes.len() {
        None
    } else if classes[k].class_id == id {
        Some(k)
    } else {
        class_position(classes, id, k + 1)
    }
}

/// The first position, from `k` on, of the ascendancy with id `id`.
pub open spec fn ascend_position(ascs: Seq<AscendEntry>, id: u32, k: int) -> Option<int>
    decreases ascs.len() - k,
{
    if k < 0 || k >= ascs.len() {
        None
    } else if ascs[k].ascend_class_id == id {
        Some(k)
    } else {
        ascend_position(ascs, id, k + 1)
    }
}

/// The selected class and ascendancy positions for the build's class and
/// ascendancy ids; a position that is not found is 0.
pub open spec fn current_selection(classes: Seq<ClassEntry>, class_id: u32, ascend_id: u32) -> (
    int,
    int,
) {
    let c = match class_position(classes, class_id, 0) {
        Some(p) => p,
        None => 0,
    };
    let a = if c < classes.len() {
        match ascend_position(classes[c].ascendancies@, ascend_id, 0) {
            Some(p) => p,
            None => 0,
        }
    } else {
        0
    };
    (c, a)
}

fn class_index(classes: &Vec<ClassEntry>, id: u32) -> (r: Option<usize>)
    ensures
        match r {
            Some(k) => class_position(classes@, id, 0) == Some(k as int),
            None => class_position(classes@, id, 0) is None,
        },
{
    let mut c: usize = 0;
    while c < classes.len()
        invariant
            c <= classes@.len(),
            class_position(classes@, id, 0) == class_position(classes@, id, c as int),
        decreases classes@.len() - c,
    {
        if classes[c].class_id == id {
            return Some(c);
        }
        c = c + 1;
    }
    None
}

fn ascend_index(ascs: &Vec<AscendEntry>, id: u32) -> (r: Option<usize>)
    ensures
        match r {
            Some(k) => ascend_position(ascs@, id, 0) == Some(k as int),
            None => ascend_position(ascs@, id, 0) is None,
        },
{
    let mut a: usize = 0;
    while a < ascs.len()
        invariant
            a <= ascs@.len(),
            ascend_position(ascs@, id, 0) == ascend_position(ascs@, id, a as int),
        decreases ascs@.len() - a,
    {
        if ascs[a].ascend_class_id == id {
            return Some(a);
        }
        a = a + 1;
    }
    None
}

/// Find the currently selected class and ascendancy indices.
pub fn find_current_selection(classes: &Vec<ClassEntry>, cur_class_id: u32, cur_ascend_id: u32) -> (r: (
    usize,
    usize,
))
    ensures
        (r.0 as int, r.1 as int) == current_selection(classes@, cur_class_id, cur_ascend_id),
{
    let class_idx = match class_index(classes, cur_class_id) {
        Some(c) => c,
        None => 0,
    };
    if class_idx >= classes.len() {
        return (class_idx, 0);
    }
    let ascend_idx = match ascend_index(&classes[class_idx].ascendancies, cur_ascend_id) {
        Some(a) => a,
        None => 0,
    };
    (class_idx, ascend_idx)
}

/// The character level typed into the header: its decimal value kept within
/// 1 to 100, or 1 when it is not a number.
pub open spec fn level_of(text: Seq<char>) -> u32 {
    let v = match decimal_u32_value(text) {
        Some(v) => v,
        None => 1,
    };
    if v < 1 {
        1
    } else if v > 100 {
        100
    } else {
        v
    }
}

proof fn lemma_decimal_reads_back(n: nat)
    ensures
        digits_value(decimal(n), 10) == Some(n),
        decimal(n).len() > 0,
        '0' <= decimal(n)[0] <= '9',
    decreases n,
{
    if n < 10 {
        assert(decimal(n) == seq![digit_char(n)]);
        assert(seq![digit_char(n)].drop_last() =~= Seq::<char>::empty());
        assert(digits_value(Seq::<char>::empty(), 10) == Some(0nat));
        assert(digit_value(digit_char(n), 10) == Some(n));
        assert(seq![digit_char(n)].last() == digit_char(n));
        assert(digits_value(decimal(n), 10) == Some(0nat * 10 + n));
    } else {
        let q = n / 10;
        let d = n % 10;
        lemma_decimal_reads_back(q);
        let s = decimal(n);
        assert(s == decimal(q).push(digit_char(d)));
        assert(s.drop_last() =~= decimal(q));
        assert(s.last() == digit_char(d));
        assert(digit_value(digit_char(d), 10) == Some(d));
        assert(digits_value(s, 10) == Some(q * 10 + d));
        assert(q * 10 + d == n) by (nonlinear_arith)
            requires
                q == n / 10,
                d == n % 10,
        ;
        assert(s[0] == decimal(q)[0]);
    }
}

/// The level always lies within 1 and 100; a number within that range,
/// written in decimal, is the level itself, and a larger one (that fits a
/// `u32`) is capped at 100.
pub proof fn lemma_level_in_range(text: Seq<char>, n: nat)
    ensures
        1 <= level_of(text) <= 100,
        1 <= n <= 100 ==> level_of(decimal(n)) == n,
        100 < n <= u32::MAX ==> level_of(decimal(n)) == 100,
{
    lemma_decimal_reads_back(n);
}

/// The character level for the header's level text.
pub fn character_level(text: &str) -> (r: u32)
    ensures
        r == level_of(text@),
{
    let v = match parse_u32(text) {
        Some(v) => v,
        None => 1,
    };
    if v < 1 {
        1
    } else if v > 100 {
        100
    } else {
        v
    }
}

/// The texts of `v`.
pub open spec fn texts(v: Seq<String>) -> Seq<Seq<char>> {
    v.map_values(|s: String| s@)
}

/// The distinct texts of `s`, in the order of their first appearance.
pub open spec fn distinct_in_order(s: Seq<Seq<char>>) -> Seq<Seq<char>>
    decreases s.len(),
{
    if s.len() == 0 {
        seq![]
    } else if distinct_in_order(s.drop_last()).contains(s.last()) {
        distinct_in_order(s.drop_last())
    } else {
        distinct_in_order(s.drop_last()).push(s.last())
    }
}

fn position_of(v: &Vec<String>, s: &String) -> (r: Option<usize>)
    ensures
        r matches Some(k) ==> k < v@.len() && v@[k as int]@ == s@ && forall|j: int|
            0 <= j < k ==> v@[j]@ != s@,
        r is None ==> !texts(v@).contains(s@),
{
    let mut k: usize = 0;
    while k < v.len()
        invariant
            k <= v@.len(),
            forall|j: int| 0 <= j < k ==> v@[j]@ != s@,
        decreases v@.len() - k,
    {
        if v[k] == *s {
            return Some(k);
        }
        k = k + 1;
    }
    assert forall|j: int| 0 <= j < texts(v@).len() implies texts(v@)[j] != s@ by {}
    None
}

/// The leagues of a character list, each once, in the order they first occur.
pub fn distinct_leagues(leagues: &Vec<String>) -> (r: Vec<String>)
    ensures
        texts(r@) == distinct_in_order(texts(leagues@)),
{
    let mut r: Vec<String> = Vec::new();
    let mut k: usize = 0;
    while k < leagues.len()
        invariant
            k <= leagues@.len(),
            texts(r@) == distinct_in_order(texts(leagues@).take(k as int)),
        decreases leagues@.len() - k,
    {
        let ghost before = texts(r@);
        assert(texts(leagues@).take(k + 1).drop_last() == texts(leagues@).take(k as int));
        assert(texts(leagues@).take(k + 1).last() == leagues@[k as int]@);
        match position_of(&r, &leagues[k]) {
            None => {
                r.push(leagues[k].clone());
                assert(texts(r@) == before.push(leagues@[k as int]@));
            },
            Some(j) => {
                assert(before[j as int] == leagues@[k as int]@);
                assert(before.contains(leagues@[k as int]@));
            },
        }
        k = k + 1;
    }
    assert(texts(leagues@).take(leagues@.len() as int) == texts(leagues@));
    r
}

/// The league filter position that preselects `last`: one past its place in
/// `leagues`, or 0 (all leagues) when it is not there.
pub open spec fn league_filter_of(leagues: Seq<String>, last: Seq<char>) -> int {
    if texts(leagues).contains(last) {
        (choose|k: int| 0 <= k < leagues.len() && leagues[k]@ == last && forall|j: int|
            0 <= j < k ==> leagues[j]@ != last) + 1
    } else {
        0
    }
}

/// The league filter position that preselects the build's last league.
pub fn league_filter_index(leagues: &Vec<String>, last: &String) -> (r: usize)
    requires
        leagues@.len() < usize::MAX,
    ensures
        r as int == league_filter_of(leagues@, last@),
{
    match position_of(leagues, last) {
        Some(k) => {
            assert(texts(leagues@)[k as int] == last@);
            let ghost w = choose|j: int| 0 <= j < leagues@.len() && leagues@[j]@ == last@ && forall|
                i: int,
            | 0 <= i < j ==> leagues@[i]@ != last@;
            assert(w == k) by {
                if w < k {
                } else if w > k {
                }
            }
            k + 1
        },
        None => 0,
    }
}

/// The positions of the characters shown under league filter `league_index`:
/// all of them for 0, else those in league `leagues[league_index - 1]`.
pub fn filtered_character_indices(
    char_leagues: &Vec<String>,
    leagues: &Vec<String>,
    league_index: usize,
) -> (r: Vec<usize>)
    requires
        league_index <= leagues@.len(),
    ensures
        r@ == Seq::new(char_leagues@.len(), |k: int| k as usize).filter(
            |k: usize|
                league_index == 0 || char_leagues@[k as int]@ == leagues@[league_index - 1]@,
        ),
{
    let ghost keep = |k: usize|
        league_index == 0 || char_leagues@[k as int]@ == leagues@[league_index - 1]@;
    let ghost all = Seq::new(char_leagues@.len(), |k: int| k as usize);
    let mut r: Vec<usize> = Vec::new();
    let mut k: usize = 0;
    while k < char_leagues.len()
        invariant
            k <= char_leagues@.len(),
            league_index <= leagues@.len(),
            all == Seq::new(char_leagues@.len(), |k: int| k as usize),
            keep == (|k: usize|
                league_index == 0 || char_leagues@[k as int]@ == leagues@[league_index - 1]@),
            r@ == all.take(k as int).filter(keep),
        decreases char_leagues@.len() - k,
    {
        reveal_with_fuel(Seq::<_>::filter, 1);
        assert(all.take(k + 1).drop_last() == all.take(k as int));
        assert(all.take(k + 1).last() == k);
        let keep_k = league_index == 0 || char_leagues[k] == leagues[league_index - 1];
        assert(keep_k == keep(k));
        if keep_k {
            r.push(k);
        }
        k = k + 1;
    }
    assert(all.take(char_leagues@.len() as int) == all);
    r
}

/// The league filter lists each league once, and exactly the leagues of the
/// characters.
pub proof fn lemma_distinct_in_order(s: Seq<Seq<char>>)
    ensures
        forall|i: int, j: int|
            0 <= i < j < distinct_in_order(s).len() ==> #[trigger] distinct_in_order(s)[i]
                != #[trigger] distinct_in_order(s)[j],
        forall|x: Seq<char>| #[trigger] distinct_in_order(s).contains(x) <==> s.contains(x),
    decreases s.len(),
{
    if s.len() > 0 {
        let init = s.drop_last();
        lemma_distinct_in_order(init);
        let d = distinct_in_order(init);
        assert forall|x: Seq<char>| s.contains(x) <==> (init.contains(x) || x == s.last()) by {
            if s.contains(x) {
                let k = choose|k: int| 0 <= k < s.len() && s[k] == x;
                if k < s.len() - 1 {
                    assert(init[k] == x);
                }
            }
            if init.contains(x) {
                let k = choose|k: int| 0 <= k < init.len() && init[k] == x;
                assert(s[k] == x);
            }
            if x == s.last() {
                assert(s[s.len() - 1] == x);
            }
        }
        if !d.contains(s.last()) {
            let e = d.push(s.last());
            assert forall|x: Seq<char>| e.contains(x) <==> (d.contains(x) || x == s.last()) by {
                if e.contains(x) {
                    let k = choose|k: int| 0 <= k < e.len() && e[k] == x;
                    if k < d.len() {
                        assert(d[k] == x);
                    }
                }
                if d.contains(x) {
                    let k = choose|k: int| 0 <= k < d.len() && d[k] == x;
                    assert(e[k] == x);
                }
                if x == s.last() {
                    assert(e[d.len() as int] == x);
                }
            }
            assert forall|i: int, j: int| 0 <= i < j < e.len() implies #[trigger] e[i] != #[trigger] e[j] by {
                if j == d.len() {
                    assert(e[i] == d[i]);
                    assert(d.contains(d[i]));
                } else {
                    assert(e[i] == d[i] && e[j] == d[j]);
                }
            }
        }
    }
}

} // verus!
