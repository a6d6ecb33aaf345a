//! The item database browser: its base-type list, every type once in string
//! order, and its filter by type and search text.

use vstd::prelude::*;
use crate::text::{chars_of, contains, contains_seq, same_chars, string_of, trim, trimmed};
use crate::selection::texts;

verus! {

/// `a` sorts before `b`: at the first position where they differ the
/// character code of `a` is smaller, or `a` is a proper prefix of `b`. This
/// is the order of the strings' UTF-8 bytes, which `String` comparison uses.
pub open spec fn text_less(a: Seq<char>, b: Seq<char>) -> bool
    decreases a.len(),
{
    if a.len() == 0 {
        b.len() > 0
    } else if b.len() == 0 {
        false
    } else if a[0] != b[0] {
        (a[0] as u32) < (b[0] as u32)
    } else {
        text_less(a.drop_first(), b.drop_first())
    }
}

/// No text sorts before itself.
pub proof fn lemma_text_less_irreflexive(a: Seq<char>)
    ensures
        !text_less(a, a),
    decreases a.len(),
{
    if a.len() > 0 {
        lemma_text_less_irreflexive(a.drop_first());
    }
}

/// The order is transitive.
pub proof fn lemma_text_less_transitive(a: Seq<char>, b: Seq<char>, c: Seq<char>)
    requires
        text_less(a, b),
        text_less(b, c),
    ensures
        text_less(a, c),
    decreases a.len(),
{
    if a.len() > 0 && b.len() > 0 && c.len() > 0 && a[0] == b[0] && b[0] == c[0] {
        lemma_text_less_transitive(a.drop_first(), b.drop_first(), c.drop_first());
    }
}

/// Of two different texts, one sorts before the other.
pub proof fn lemma_text_less_total(a: Seq<char>, b: Seq<char>)
    requires
        a != b,
    ensures
        text_less(a, b) || text_less(b, a),
    decreases a.len(),
{
    if a.len() > 0 && b.len() > 0 && a[0] == b[0] {
        if a.drop_first() == b.drop_first() {
            assert(a =~= seq![a[0]] + a.drop_first());
            assert(b =~= seq![b[0]] + b.drop_first());
        }
        lemma_text_less_total(a.drop_first(), b.drop_first());
    } else if a.len() > 0 && b.len() > 0 {
        if (a[0] as u32) == (b[0] as u32) {
            vstd::utf8::char_u32_cast(a[0], a[0] as u32);
            vstd::utf8::char_u32_cast(b[0], b[0] as u32);
        }
    } else if a.len() == 0 && b.len() == 0 {
        assert(a =~= b);
    }
}

/// Whether `a` sorts before `b`.
fn text_before(a: &[char], b: &[char]) -> (r: bool)
    ensures
        r == text_less(a@, b@),
{
    let mut i: usize = 0;
    assert(a@.skip(0) =~= a@ && b@.skip(0) =~= b@);
    while i < a.len() && i < b.len()
        invariant
            i <= a@.len(),
            i <= b@.len(),
            text_less(a@, b@) == text_less(a@.skip(i as int), b@.skip(i as int)),
        decreases a@.len() - i,
    {
        if a[i] != b[i] {
            return (a[i] as u32) < (b[i] as u32);
        }
        assert(a@.skip(i as int).drop_first() =~= a@.skip(i + 1));
        assert(b@.skip(i as int).drop_first() =~= b@.skip(i + 1));
        i = i + 1;
    }
    i < b.len() && i == a.len()
}

/// `r` is strictly increasing in text order.
pub open spec fn strictly_sorted(r: Seq<Seq<char>>) -> bool {
    forall|i: int, j: int| 0 <= i < j < r.len() ==> text_less(#[trigger] r[i], #[trigger] r[j])
}

/// Distinct base types present in a database list, sorted; empty ones are
/// left out.
pub fn distinct_types(item_types: &Vec<String>) -> (r: Vec<String>)
    ensures
        strictly_sorted(texts(r@)),
        forall|t: Seq<char>|
            texts(r@).contains(t) <==> (t.len() > 0 && texts(item_types@).contains(t)),
{
    let mut r: Vec<String> = Vec::new();
    let mut rc: Vec<Vec<char>> = Vec::new();
    let mut i: usize = 0;
    while i < item_types.len()
        invariant
            i <= item_types@.len(),
            r@.len() == rc@.len(),
            forall|k: int| 0 <= k < r@.len() ==> (#[trigger] r@[k])@ == rc@[k]@,
            strictly_sorted(texts(r@)),
            forall|t: Seq<char>|
                texts(r@).contains(t) <==> (t.len() > 0 && texts(item_types@.take(i as int)).contains(
                    t,
                )),
        decreases item_types@.len() - i,
    {
        let ghost before = texts(r@);
        let t = chars_of(item_types[i].as_str());
        proof {
            assert(item_types@.take(i + 1) =~= item_types@.take(i as int).push(item_types@[i as int]));
            assert(texts(item_types@.take(i + 1)) =~= texts(item_types@.take(i as int)).push(t@));
            let old_in = texts(item_types@.take(i as int));
            assert forall|u: Seq<char>| old_in.push(t@).contains(u) <==> (old_in.contains(u) || u
                == t@) by {
                if old_in.push(t@).contains(u) {
                    let k = choose|k: int| 0 <= k < old_in.len() + 1 && old_in.push(t@)[k] == u;
                    if k < old_in.len() {
                        assert(old_in[k] == u);
                    }
                }
                if old_in.contains(u) {
                    let k = choose|k: int| 0 <= k < old_in.len() && old_in[k] == u;
                    assert(old_in.push(t@)[k] == u);
                }
                if u == t@ {
                    assert(old_in.push(t@)[old_in.len() as int] == u);
                }
            }
        }
        if t.len() > 0 {
            let mut p: usize = 0;
            while p < rc.len() && text_before(&rc[p], &t)
                invariant
                    p <= rc@.len(),
                    r@.len() == rc@.len(),
                    forall|k: int| 0 <= k < r@.len() ==> (#[trigger] r@[k])@ == rc@[k]@,
                    forall|k: int| 0 <= k < p ==> text_less(#[trigger] rc@[k]@, t@),
                decreases rc@.len() - p,
            {
                p = p + 1;
            }
            let present = p < rc.len() && same_chars(&rc[p], &t);
            if !present {
                let s = item_types[i].clone();
                r.insert(p, s);
                rc.insert(p, t);
                proof {
                    let after = texts(r@);
                    assert(after =~= before.insert(p as int, t@));
                    if p < before.len() {
                        assert(before[p as int] == rc@[p as int + 1]@);
                        assert(!text_less(before[p as int], t@));
                        assert(before[p as int] != t@);
                        lemma_text_less_total(before[p as int], t@);
                    }
                    assert forall|a: int, b: int| 0 <= a < b < after.len() implies text_less(
                        #[trigger] after[a],
                        #[trigger] after[b],
                    ) by {
                        if a < p && b == p {
                            assert(before[a] == rc@[a]@);
                        } else if a < p && b > p {
                            assert(before[a] == rc@[a]@);
                            assert(text_less(before[a], before[b - 1]));
                        } else if a == p && b > p {
                            if b - 1 > p {
                                assert(text_less(before[p as int], before[b - 1]));
                                lemma_text_less_transitive(t@, before[p as int], before[b - 1]);
                            }
                        } else if a > p {
                            assert(text_less(before[a - 1], before[b - 1]));
                        } else {
                            assert(text_less(before[a], before[b]));
                        }
                    }
                    assert forall|u: Seq<char>| after.contains(u) <==> (before.contains(u) || u
                        == t@) by {
                        if after.contains(u) {
                            let k = choose|k: int| 0 <= k < after.len() && after[k] == u;
                            if k < p {
                                assert(before[k] == u);
                            } else if k > p {
                                assert(before[k - 1] == u);
                            }
                        }
                        if before.contains(u) {
                            let k = choose|k: int| 0 <= k < before.len() && before[k] == u;
                            if k < p {
                                assert(after[k] == u);
                            } else {
                                assert(after[k + 1] == u);
                            }
                        }
                        if u == t@ {
                            assert(after[p as int] == u);
                        }
                    }
                }
            } else {
                proof {
                    assert(before[p as int] == t@);
                }
            }
        }
        proof {
            let old_in = texts(item_types@.take(i as int));
            assert forall|u: Seq<char>| texts(r@).contains(u) <==> (u.len() > 0 && old_in.push(
                t@,
            ).contains(u)) by {
                assert(old_in.push(t@).contains(u) <==> (old_in.contains(u) || u == t@));
                assert(before.contains(u) <==> (u.len() > 0 && old_in.contains(u)));
            }
        }
        i = i + 1;
    }
    proof {
        assert(item_types@.take(item_types@.len() as int) =~= item_types@);
    }
    r
}

/// An item of the unique or rare-template database: its name, base type and
/// item text, and the lower-case texts that searches look in.
pub struct DbItem {
    pub name: String,
    pub item_type: String,
    pub raw: String,
    pub search_name: String,
    pub search_mods: String,
}

/// Where the browser's search looks.
#[derive(Clone, Copy, PartialEq, Eq, Structural, Debug)]
pub enum DbSearchMode {
    Anywhere,
    Names,
    Modifiers,
}

/// What `str::to_lowercase` makes of `s`.
pub uninterp spec fn lowercase(s: Seq<char>) -> Seq<char>;

/// Calls `str::to_lowercase`, which replaces each character by its
/// lower-case mapping; the result is given by its name.
#[verifier::external_body]
pub(crate) fn to_lowercase(s: &str) -> (r: String)
    ensures
        r@ == lowercase(s@),
{
    s.to_lowercase()
}

/// The search text as items are matched against it: trimmed, in lower case.
pub open spec fn search_key(search: Seq<char>) -> Seq<char> {
    lowercase(trimmed(search))
}

/// Item `item` is listed under base-type filter `type_filter` (empty for any
/// type) and search key `key` (empty for no search) in search mode `mode`.
pub open spec fn item_listed(item: DbItem, type_filter: Seq<char>, key: Seq<char>, mode: DbSearchMode) -> bool {
    &&& type_filter.len() == 0 || item.item_type@ == type_filter
    &&& key.len() == 0 || match mode {
        DbSearchMode::Names => contains_seq(item.search_name@, key),
        DbSearchMode::Modifiers => contains_seq(item.search_mods@, key),
        DbSearchMode::Anywhere => contains_seq(item.search_name@, key) || contains_seq(
            item.search_mods@,
            key,
        ),
    }
}

/// The positions of `items` listed under base-type filter `type_filter`,
/// search key `key` and mode `mode`, in list order.
pub open spec fn listed_positions(
    items: Seq<DbItem>,
    type_filter: Seq<char>,
    key: Seq<char>,
    mode: DbSearchMode,
) -> Seq<usize> {
    Seq::new(items.len(), |k: int| k as usize).filter(
        |k: usize| item_listed(items[k as int], type_filter, key, mode),
    )
}

/// The base-type filter holds whatever the search: when a type is chosen,
/// every listed position is an item of that type.
pub proof fn lemma_listed_have_type(
    items: Seq<DbItem>,
    type_filter: Seq<char>,
    key: Seq<char>,
    mode: DbSearchMode,
    j: int,
)
    requires
        type_filter.len() > 0,
        0 <= j < listed_positions(items, type_filter, key, mode).len(),
    ensures
        listed_positions(items, type_filter, key, mode)[j] < items.len(),
        items[listed_positions(items, type_filter, key, mode)[j] as int].item_type@ == type_filter,
{
    let all = Seq::new(items.len(), |k: int| k as usize);
    let pred = |k: usize| item_listed(items[k as int], type_filter, key, mode);
    let r = all.filter(pred);
    assert(r == listed_positions(items, type_filter, key, mode));
    all.lemma_filter_pred(pred, j);
    all.lemma_filter_contains_rev(pred, r[j]);
    let i = choose|i: int| 0 <= i < all.len() && all[i] == r[j];
    assert(all[i] == i as usize);
}

/// Every item of the chosen type that the search finds is listed: with no
/// search text, a type filter lists exactly the items of that type.
pub proof fn lemma_type_lists_every_match(
    items: Seq<DbItem>,
    type_filter: Seq<char>,
    mode: DbSearchMode,
    k: int,
)
    requires
        0 <= k < items.len(),
        items.len() <= usize::MAX,
        items[k].item_type@ == type_filter,
    ensures
        listed_positions(items, type_filter, seq![], mode).contains(k as usize),
{
    let all = Seq::new(items.len(), |k: int| k as usize);
    let pred = |k: usize| item_listed(items[k as int], type_filter, seq![], mode);
    assert(all[k] == k as usize);
    assert(pred(all[k]));
    all.lemma_filter_contains(pred, k);
    assert(all.filter(pred) == listed_positions(items, type_filter, seq![], mode));
}

/// The positions of the items listed under a base-type filter and an
/// already lower-cased search key, in list order.
pub fn filter_db_items_by_key(
    items: &Vec<DbItem>,
    type_filter: &str,
    key: &str,
    mode: DbSearchMode,
) -> (r: Vec<usize>)
    ensures
        r@ == Seq::new(items@.len(), |k: int| k as usize).filter(
            |k: usize| item_listed(items@[k as int], type_filter@, key@, mode),
        ),
        forall|j: int|
            0 <= j < r@.len() && type_filter@.len() > 0 ==> r@[j] < items@.len() && items@[#[trigger] r@[j] as int].item_type@
                == type_filter@,
{
    let ghost keep = |k: usize| item_listed(items@[k as int], type_filter@, key@, mode);
    let ghost all = Seq::new(items@.len(), |k: int| k as usize);
    let tf = chars_of(type_filter);
    let kc = chars_of(key);
    let mut r: Vec<usize> = Vec::new();
    let mut k: usize = 0;
    while k < items.len()
        invariant
            k <= items@.len(),
            tf@ == type_filter@,
            kc@ == key@,
            all == Seq::new(items@.len(), |k: int| k as usize),
            keep == (|k: usize| item_listed(items@[k as int], type_filter@, key@, mode)),
            r@ == all.take(k as int).filter(keep),
        decreases items@.len() - k,
    {
        reveal_with_fuel(Seq::<_>::filter, 1);
        assert(all.take(k + 1).drop_last() == all.take(k as int));
        assert(all.take(k + 1).last() == k);
        let item = &items[k];
        let type_ok = tf.len() == 0 || same_chars(&chars_of(item.item_type.as_str()), &tf);
        let hit = if kc.len() == 0 {
            true
        } else {
            match mode {
                DbSearchMode::Names => contains(&chars_of(item.search_name.as_str()), &kc),
                DbSearchMode::Modifiers => contains(&chars_of(item.search_mods.as_str()), &kc),
                DbSearchMode::Anywhere => contains(&chars_of(item.search_name.as_str()), &kc)
                    || contains(&chars_of(item.search_mods.as_str()), &kc),
            }
        };
        assert((type_ok && hit) == keep(k));
        if type_ok && hit {
            r.push(k);
        }
        k = k + 1;
    }
    assert(all.take(items@.len() as int) == all);
    proof {
        assert(r@ == listed_positions(items@, type_filter@, key@, mode));
        assert forall|j: int|
            0 <= j < r@.len() && type_filter@.len() > 0 implies r@[j] < items@.len() && items@[#[trigger] r@[j] as int].item_type@
                == type_filter@ by {
            lemma_listed_have_type(items@, type_filter@, key@, mode, j);
        }
    }
    r
}

/// The positions of the items the browser lists for a base-type filter and
/// the search text as typed, in list order.
pub fn filter_db_items(
    items: &Vec<DbItem>,
    type_filter: &str,
    search: &str,
    mode: DbSearchMode,
) -> (r: Vec<usize>)
    ensures
        r@ == Seq::new(items@.len(), |k: int| k as usize).filter(
            |k: usize| item_listed(items@[k as int], type_filter@, search_key(search@), mode),
        ),
        forall|j: int|
            0 <= j < r@.len() && type_filter@.len() > 0 ==> r@[j] < items@.len() && items@[#[trigger] r@[j] as int].item_type@
                == type_filter@,
{
    let trimmed_search = string_of(&trim(&chars_of(search)));
    let key = to_lowercase(trimmed_search.as_str());
    filter_db_items_by_key(items, type_filter, key.as_str(), mode)
}

/// The item database browser's state: whether it is open, whether the
/// databases are loaded, which tab is shown (rare templates or uniques), the
/// search text and where it looks, and the base type chosen ("" for any).
pub struct DbBrowserUi {
    pub open: bool,
    pub loaded: bool,
    pub show_rares: bool,
    pub search: String,
    pub mode: DbSearchMode,
    pub type_filter: String,
}

/// What the user did in the browser in a frame.
pub enum DbEvent {
    /// The Uniques (false) or Rare Templates (true) tab was picked.
    PickTab(bool),
    SearchEdited(String),
    Mode(DbSearchMode),
    /// Any type was picked.
    AnyType,
    PickType(String),
    /// The window was closed.
    Closed,
    Idle,
}

/// One frame of the browser: picking a tab shows it and forgets the chosen
/// base type; the search, its mode and the type are kept as picked; closing
/// the window closes it.
pub fn db_browser_step(b: DbBrowserUi, e: DbEvent) -> (r: DbBrowserUi)
    ensures
        e matches DbEvent::PickTab(rares) ==> r.show_rares == rares && r.type_filter@.len() == 0
            && r.open == b.open && r.loaded == b.loaded && r.search == b.search && r.mode == b.mode,
        e matches DbEvent::SearchEdited(t) ==> r == (DbBrowserUi { search: t, ..b }),
        e matches DbEvent::Mode(m) ==> r == (DbBrowserUi { mode: m, ..b }),
        e is AnyType ==> r.type_filter@.len() == 0 && r.open == b.open && r.loaded == b.loaded
            && r.show_rares == b.show_rares && r.search == b.search && r.mode == b.mode,
        e matches DbEvent::PickType(t) ==> r == (DbBrowserUi { type_filter: t, ..b }),
        e is Closed ==> r == (DbBrowserUi { open: false, ..b }),
        e is Idle ==> r == b,
{
    match e {
        DbEvent::PickTab(rares) => DbBrowserUi { show_rares: rares, type_filter: String::new(), ..b },
        DbEvent::SearchEdited(t) => DbBrowserUi { search: t, ..b },
        DbEvent::Mode(m) => DbBrowserUi { mode: m, ..b },
        DbEvent::AnyType => DbBrowserUi { type_filter: String::new(), ..b },
        DbEvent::PickType(t) => DbBrowserUi { type_filter: t, ..b },
        DbEvent::Closed => DbBrowserUi { open: false, ..b },
        DbEvent::Idle => b,
    }
}

/// The entries the browser lists: none while it is closed or still loading;
/// otherwise the positions of the shown tab's items that pass the type
/// filter and the search, in list order.
pub fn db_listing(b: &DbBrowserUi, uniques: &Vec<DbItem>, rares: &Vec<DbItem>) -> (r: Option<Vec<usize>>)
    ensures
        !(b.open && b.loaded) ==> r is None,
        b.open && b.loaded ==> (r matches Some(v) && v@ == {
            let items = if b.show_rares {
                rares@
            } else {
                uniques@
            };
            Seq::new(items.len(), |k: int| k as usize).filter(
                |k: usize| item_listed(items[k as int], b.type_filter@, search_key(b.search@), b.mode),
            )
        }),
{
    if !(b.open && b.loaded) {
        return None;
    }
    let items = if b.show_rares {
        rares
    } else {
        uniques
    };
    Some(filter_db_items(items, b.type_filter.as_str(), b.search.as_str(), b.mode))
}

} // verus!
