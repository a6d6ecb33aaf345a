//! Configuration options grouped under their section headers, and the order
//! in which the section boxes are laid out.

use vstd::prelude::*;
use crate::text::{chars_of, contains, contains_seq, same_chars};
use crate::item_types::{lowercase, to_lowercase};

verus! {

/// An entry of the configuration option list: a section header, or an option
/// that belongs to the section above it.
pub enum ConfigEntry {
    Section { label: String },
    Setting,
}

/// The section `(label, indices)`, unless it has neither a label nor options.
pub open spec fn closed_section(label: Seq<char>, idx: Seq<usize>) -> Seq<(Seq<char>, Seq<usize>)> {
    if idx.len() > 0 || label.len() > 0 {
        seq![(label, idx)]
    } else {
        seq![]
    }
}

/// The sections of `e` from position `i` on, with section `label` open and
/// holding options `idx`.
pub open spec fn sections_from(e: Seq<ConfigEntry>, i: int, label: Seq<char>, idx: Seq<usize>) -> Seq<
    (Seq<char>, Seq<usize>),
>
    decreases e.len() - i,
{
    if i < 0 || i >= e.len() {
        closed_section(label, idx)
    } else {
        match e[i] {
            ConfigEntry::Section { label: l } => closed_section(label, idx) + sections_from(
                e,
                i + 1,
                l@,
                seq![],
            ),
            ConfigEntry::Setting => sections_from(e, i + 1, label, idx.push(i as usize)),
        }
    }
}

/// The view of grouped sections.
pub open spec fn sections_view(v: Seq<(String, Vec<usize>)>) -> Seq<(Seq<char>, Seq<usize>)> {
    v.map_values(|p: (String, Vec<usize>)| (p.0@, p.1@))
}

/// Group option indices by their preceding section header.
/// Returns `(section_label, indices_into_options)`.
pub fn group_by_section(options: &Vec<ConfigEntry>) -> (r: Vec<(String, Vec<usize>)>)
    ensures
        sections_view(r@) == sections_from(options@, 0, seq![], seq![]),
{
    let mut groups: Vec<(String, Vec<usize>)> = Vec::new();
    let mut current_section = String::new();
    let mut current_indices: Vec<usize> = Vec::new();
    let mut i: usize = 0;
    assert(sections_view(groups@) =~= Seq::<(Seq<char>, Seq<usize>)>::empty());
    while i < options.len()
        invariant
            i <= options@.len(),
            sections_from(options@, 0, seq![], seq![]) == sections_view(groups@) + sections_from(
                options@,
                i as int,
                current_section@,
                current_indices@,
            ),
        decreases options@.len() - i,
    {
        let ghost before = sections_view(groups@);
        match &options[i] {
            ConfigEntry::Section { label } => {
                if current_indices.len() > 0 || !current_section.as_str().is_empty() {
                    let idx = current_indices;
                    groups.push((current_section, idx));
                    assert(sections_view(groups@) =~= before + closed_section(
                        current_section@,
                        idx@,
                    ));
                } else {
                    assert(closed_section(current_section@, current_indices@) =~= Seq::<
                        (Seq<char>, Seq<usize>),
                    >::empty());
                }
                current_section = label.clone();
                current_indices = Vec::new();
            },
            ConfigEntry::Setting => {
                current_indices.push(i);
            },
        }
        i = i + 1;
    }
    let ghost before = sections_view(groups@);
    if current_indices.len() > 0 || !current_section.as_str().is_empty() {
        groups.push((current_section, current_indices));
        assert(sections_view(groups@) =~= before + closed_section(
            current_section@,
            current_indices@,
        ));
    } else {
        assert(before + closed_section(current_section@, current_indices@) =~= before);
    }
    groups
}

/// The positions of the options (not the section headers) of `e`, from `i` on.
pub open spec fn setting_positions(e: Seq<ConfigEntry>, i: int) -> Seq<usize>
    decreases e.len() - i,
{
    if i < 0 || i >= e.len() {
        seq![]
    } else {
        match e[i] {
            ConfigEntry::Setting => seq![i as usize] + setting_positions(e, i + 1),
            ConfigEntry::Section { .. } => setting_positions(e, i + 1),
        }
    }
}

/// The option positions of the sections `g`, section after section.
pub open spec fn section_indices(g: Seq<(Seq<char>, Seq<usize>)>) -> Seq<usize>
    decreases g.len(),
{
    if g.len() == 0 {
        seq![]
    } else {
        section_indices(g.drop_last()) + g.last().1
    }
}

proof fn lemma_section_indices_concat(a: Seq<(Seq<char>, Seq<usize>)>, b: Seq<(Seq<char>, Seq<usize>)>)
    ensures
        section_indices(a + b) == section_indices(a) + section_indices(b),
    decreases b.len(),
{
    if b.len() == 0 {
        assert(a + b =~= a);
        assert(section_indices(a) + section_indices(b) =~= section_indices(a));
    } else {
        assert((a + b).drop_last() =~= a + b.drop_last());
        assert((a + b).last() == b.last());
        lemma_section_indices_concat(a, b.drop_last());
        assert(section_indices(a) + section_indices(b) =~= section_indices(a) + section_indices(
            b.drop_last(),
        ) + b.last().1);
    }
}

proof fn lemma_closed_section_indices(label: Seq<char>, idx: Seq<usize>)
    ensures
        section_indices(closed_section(label, idx)) == idx,
{
    let c = closed_section(label, idx);
    if c.len() > 0 {
        assert(c.drop_last() =~= Seq::<(Seq<char>, Seq<usize>)>::empty());
        assert(c.last() == (label, idx));
        assert(section_indices(c.drop_last()) =~= Seq::<usize>::empty());
        assert(section_indices(c) =~= idx);
    } else {
        assert(idx =~= Seq::<usize>::empty());
    }
}

proof fn lemma_sections_from_indices(
    e: Seq<ConfigEntry>,
    i: int,
    label: Seq<char>,
    idx: Seq<usize>,
)
    requires
        0 <= i,
    ensures
        section_indices(sections_from(e, i, label, idx)) == idx + setting_positions(e, i),
    decreases e.len() - i,
{
    if i >= e.len() {
        lemma_closed_section_indices(label, idx);
        assert(idx + setting_positions(e, i) =~= idx);
    } else {
        match e[i] {
            ConfigEntry::Section { label: l } => {
                lemma_sections_from_indices(e, i + 1, l@, seq![]);
                lemma_section_indices_concat(
                    closed_section(label, idx),
                    sections_from(e, i + 1, l@, seq![]),
                );
                lemma_closed_section_indices(label, idx);
                assert(seq![] + setting_positions(e, i + 1) =~= setting_positions(e, i + 1));
            },
            ConfigEntry::Setting => {
                lemma_sections_from_indices(e, i + 1, label, idx.push(i as usize));
                assert(idx.push(i as usize) + setting_positions(e, i + 1) =~= idx + (seq![
                    i as usize,
                ] + setting_positions(e, i + 1)));
            },
        }
    }
}

/// Every option lands in exactly one section, in list order: the sections'
/// option lists, read one after another, are the positions of the options.
pub proof fn lemma_sections_cover_settings(e: Seq<ConfigEntry>)
    ensures
        section_indices(sections_from(e, 0, seq![], seq![])) == setting_positions(e, 0),
{
    lemma_sections_from_indices(e, 0, seq![], seq![]);
    assert(Seq::<usize>::empty() + setting_positions(e, 0) =~= setting_positions(e, 0));
}

/// The texts of an option that the config search looks in: its label and
/// the name of its variable, when it has one.
pub struct OptionText {
    pub label: String,
    pub var: Option<String>,
}

/// The section that is shown even when none of its options is.
pub open spec fn custom_mods_section() -> Seq<char> {
    "Custom Modifiers"@
}

/// Option `text` matches the lower-cased search `key`: every option matches
/// an empty search, else one whose lower-cased label or variable name holds it.
pub open spec fn option_matches(text: OptionText, key: Seq<char>) -> bool {
    key.len() == 0 || contains_seq(lowercase(text.label@), key) || (text.var matches Some(v)
        && contains_seq(lowercase(v@), key))
}

/// Option `i` gets a row: it is an option (not a section header), it is shown
/// under the current show-all setting, and it matches the search.
pub open spec fn option_visible(
    e: Seq<ConfigEntry>,
    texts: Seq<OptionText>,
    shown: Seq<bool>,
    key: Seq<char>,
    i: usize,
) -> bool {
    &&& i < e.len()
    &&& e[i as int] is Setting
    &&& shown[i as int]
    &&& option_matches(texts[i as int], key)
}

/// A section with only its visible options.
pub open spec fn visible_part(
    e: Seq<ConfigEntry>,
    texts: Seq<OptionText>,
    shown: Seq<bool>,
    key: Seq<char>,
    p: (Seq<char>, Seq<usize>),
) -> (Seq<char>, Seq<usize>) {
    (p.0, p.1.filter(|i: usize| option_visible(e, texts, shown, key, i)))
}

/// A section is laid out when it has a row, or is the custom modifiers one.
pub open spec fn section_kept(p: (Seq<char>, Seq<usize>)) -> bool {
    p.1.len() > 0 || p.0 == custom_mods_section()
}

/// The sections laid out for search `key` (lower-cased): each section of the
/// option list with its visible options, keeping those that have any and the
/// custom modifiers section.
pub open spec fn visible_sections_of(
    e: Seq<ConfigEntry>,
    texts: Seq<OptionText>,
    shown: Seq<bool>,
    key: Seq<char>,
) -> Seq<(Seq<char>, Seq<usize>)> {
    sections_from(e, 0, seq![], seq![]).map_values(
        |p: (Seq<char>, Seq<usize>)| visible_part(e, texts, shown, key, p),
    ).filter(|p: (Seq<char>, Seq<usize>)| section_kept(p))
}

fn option_visible_exec(
    options: &Vec<ConfigEntry>,
    texts: &Vec<OptionText>,
    shown: &Vec<bool>,
    key: &Vec<char>,
    i: usize,
) -> (r: bool)
    requires
        texts@.len() == options@.len(),
        shown@.len() == options@.len(),
    ensures
        r == option_visible(options@, texts@, shown@, key@, i),
{
    if i >= options.len() {
        return false;
    }
    let is_setting = match &options[i] {
        ConfigEntry::Setting => true,
        ConfigEntry::Section { .. } => false,
    };
    if !is_setting || !shown[i] {
        return false;
    }
    if key.len() == 0 {
        return true;
    }
    let t = &texts[i];
    let label = to_lowercase(t.label.as_str());
    if contains(&chars_of(label.as_str()), key) {
        return true;
    }
    match &t.var {
        Some(v) => {
            let lv = to_lowercase(v.as_str());
            contains(&chars_of(lv.as_str()), key)
        },
        None => false,
    }
}

/// The sections laid out for the search text `search`: every section of the
/// option list with its options that are shown and match the lower-cased
/// search, keeping the sections that have any and the custom modifiers one.
pub fn visible_sections(
    options: &Vec<ConfigEntry>,
    texts: &Vec<OptionText>,
    shown: &Vec<bool>,
    search: &str,
) -> (r: Vec<(String, Vec<usize>)>)
    requires
        texts@.len() == options@.len(),
        shown@.len() == options@.len(),
    ensures
        sections_view(r@) == visible_sections_of(options@, texts@, shown@, lowercase(search@)),
{
    let key_s = to_lowercase(search);
    let key = chars_of(key_s.as_str());
    let groups = group_by_section(options);
    let ghost e = options@;
    let ghost ts = texts@;
    let ghost sh = shown@;
    let ghost k = key@;
    let ghost m = sections_view(groups@).map_values(
        |p: (Seq<char>, Seq<usize>)| visible_part(e, ts, sh, k, p),
    );
    let mut r: Vec<(String, Vec<usize>)> = Vec::new();
    let mut g: usize = 0;
    while g < groups.len()
        invariant
            g <= groups@.len(),
            texts@.len() == options@.len(),
            shown@.len() == options@.len(),
            e == options@,
            ts == texts@,
            sh == shown@,
            k == key@,
            m == sections_view(groups@).map_values(
                |p: (Seq<char>, Seq<usize>)| visible_part(e, ts, sh, k, p),
            ),
            sections_view(r@) == m.take(g as int).filter(|p: (Seq<char>, Seq<usize>)| section_kept(p)),
        decreases groups@.len() - g,
    {
        let idx = &groups[g].1;
        let ghost f = |i: usize| option_visible(e, ts, sh, k, i);
        let mut vis: Vec<usize> = Vec::new();
        let mut j: usize = 0;
        while j < idx.len()
            invariant
                j <= idx@.len(),
                texts@.len() == options@.len(),
                shown@.len() == options@.len(),
                e == options@,
                ts == texts@,
                sh == shown@,
                k == key@,
                f == (|i: usize| option_visible(e, ts, sh, k, i)),
                vis@ == idx@.take(j as int).filter(f),
            decreases idx@.len() - j,
        {
            reveal_with_fuel(Seq::<_>::filter, 1);
            assert(idx@.take(j + 1).drop_last() == idx@.take(j as int));
            assert(idx@.take(j + 1).last() == idx@[j as int]);
            if option_visible_exec(options, texts, shown, &key, idx[j]) {
                vis.push(idx[j]);
            }
            j = j + 1;
        }
        assert(idx@.take(idx@.len() as int) == idx@);
        let ghost part = m[g as int];
        assert(part == visible_part(e, ts, sh, k, (groups@[g as int].0@, groups@[g as int].1@)));
        assert(part.1 == vis@);
        let keep = vis.len() > 0 || same_chars(
            &chars_of(groups[g].0.as_str()),
            &chars_of("Custom Modifiers"),
        );
        reveal_with_fuel(Seq::<_>::filter, 1);
        assert(m.take(g + 1).drop_last() == m.take(g as int));
        assert(m.take(g + 1).last() == part);
        if keep {
            let label = groups[g].0.clone();
            let ghost before = r@;
            r.push((label, vis));
            assert(sections_view(r@) =~= sections_view(before).push(part));
        }
        g = g + 1;
    }
    assert(m.take(groups@.len() as int) == m);
    r
}

/// The number of sections with a fixed place in the layout.
pub const SECTION_ORDER_LEN: usize = 7;

/// The place of a section box in the layout: General, When In Combat, For
/// Effective DPS, Custom Modifiers, Skill Options, Map Modifiers and Player
/// Debuffs, Enemy Stats; any other section comes after these.
pub open spec fn section_rank(label: Seq<char>) -> nat {
    if label == "General"@ {
        0
    } else if label == "When In Combat"@ {
        1
    } else if label == "For Effective DPS"@ {
        2
    } else if label == "Custom Modifiers"@ {
        3
    } else if label == "Skill Options"@ {
        4
    } else if label == "Map Modifiers and Player Debuffs"@ {
        5
    } else if label == "Enemy Stats"@ {
        6
    } else {
        7
    }
}

fn rank_of(label: &str) -> (r: usize)
    ensures
        r == section_rank(label@),
{
    let l = chars_of(label);
    if same_chars(&l, &chars_of("General")) {
        0
    } else if same_chars(&l, &chars_of("When In Combat")) {
        1
    } else if same_chars(&l, &chars_of("For Effective DPS")) {
        2
    } else if same_chars(&l, &chars_of("Custom Modifiers")) {
        3
    } else if same_chars(&l, &chars_of("Skill Options")) {
        4
    } else if same_chars(&l, &chars_of("Map Modifiers and Player Debuffs")) {
        5
    } else if same_chars(&l, &chars_of("Enemy Stats")) {
        6
    } else {
        7
    }
}

/// Section `a` is laid out before section `b`: it has an earlier place, or
/// the same place and comes first in the option list.
pub open spec fn laid_out_before(labels: Seq<String>, a: usize, b: usize) -> bool {
    section_rank(labels[a as int]@) < section_rank(labels[b as int]@) || (section_rank(
        labels[a as int]@,
    ) == section_rank(labels[b as int]@) && a < b)
}

/// The order in which the section boxes are laid out, as positions into
/// `labels`: every section once, by place, keeping list order within a place.
pub fn order_sections(labels: &Vec<String>) -> (r: Vec<usize>)
    ensures
        forall|k: int| 0 <= k < r@.len() ==> r@[k] < labels@.len(),
        forall|x: usize| x < labels@.len() ==> r@.contains(x),
        forall|i: int, j: int|
            0 <= i < j < r@.len() ==> laid_out_before(labels@, #[trigger] r@[i], #[trigger] r@[j]),
{
    let n = labels.len();
    let mut ranks: Vec<usize> = Vec::new();
    let mut k: usize = 0;
    while k < n
        invariant
            k <= n == labels@.len(),
            ranks@.len() == k,
            forall|j: int| 0 <= j < k ==> ranks@[j] == section_rank(#[trigger] labels@[j]@),
        decreases n - k,
    {
        ranks.push(rank_of(labels[k].as_str()));
        k = k + 1;
    }
    let mut r: Vec<usize> = Vec::new();
    let mut q: usize = 0;
    while q <= SECTION_ORDER_LEN
        invariant
            q <= SECTION_ORDER_LEN + 1,
            n == labels@.len() == ranks@.len(),
            forall|j: int| 0 <= j < n ==> ranks@[j] == section_rank(#[trigger] labels@[j]@),
            forall|i: int| 0 <= i < r@.len() ==> #[trigger] r@[i] < n,
            forall|i: int| 0 <= i < r@.len() ==> section_rank(labels@[#[trigger] r@[i] as int]@) < q,
            forall|x: usize| x < n && section_rank(labels@[x as int]@) < q ==> r@.contains(x),
            forall|i: int, j: int|
                0 <= i < j < r@.len() ==> laid_out_before(labels@, #[trigger] r@[i], #[trigger] r@[j]),
        decreases SECTION_ORDER_LEN + 1 - q,
    {
        let mut k: usize = 0;
        while k < n
            invariant
                q <= SECTION_ORDER_LEN,
                k <= n == labels@.len() == ranks@.len(),
                forall|j: int| 0 <= j < n ==> ranks@[j] == section_rank(#[trigger] labels@[j]@),
                forall|i: int| 0 <= i < r@.len() ==> #[trigger] r@[i] < n,
                forall|i: int|
                    0 <= i < r@.len() ==> section_rank(labels@[#[trigger] r@[i] as int]@) < q || (
                    section_rank(labels@[r@[i] as int]@) == q && r@[i] < k),
                forall|x: usize|
                    x < n && (section_rank(labels@[x as int]@) < q || (section_rank(
                        labels@[x as int]@,
                    ) == q && x < k)) ==> r@.contains(x),
                forall|i: int, j: int|
                    0 <= i < j < r@.len() ==> laid_out_before(labels@, #[trigger] r@[i], #[trigger] r@[j]),
            decreases n - k,
        {
            if ranks[k] == q {
                let ghost before = r@;
                r.push(k);
                assert forall|x: usize|
                    x < n && (section_rank(labels@[x as int]@) < q || (section_rank(
                        labels@[x as int]@,
                    ) == q && x < k + 1)) implies r@.contains(x) by {
                    if x == k {
                        assert(r@[r@.len() - 1] == k);
                    } else {
                        assert(before.contains(x));
                        let w = choose|w: int| 0 <= w < before.len() && before[w] == x;
                        assert(r@[w] == x);
                    }
                }
                assert forall|i: int, j: int|
                    0 <= i < j < r@.len() implies laid_out_before(
                    labels@,
                    #[trigger] r@[i],
                    #[trigger] r@[j],
                ) by {
                    if j == r@.len() - 1 {
                        assert(r@[i] == before[i]);
                    } else {
                        assert(r@[i] == before[i] && r@[j] == before[j]);
                    }
                }
            }
            k = k + 1;
        }
        q = q + 1;
    }
    assert forall|x: usize| x < labels@.len() implies r@.contains(x) by {
        assert(section_rank(labels@[x as int]@) <= 7);
    }
    r
}

/// The config panel's own state: the search text, whether every option is
/// listed, whether the reset confirmation and the set manager are open.
pub struct ConfigUi {
    pub search: String,
    pub show_all: bool,
    pub confirm_reset: bool,
    pub manage_open: bool,
}

/// What the user did on the config panel's bars in a frame.
pub enum ConfigEvent {
    /// An undo or redo went through.
    UndoRedoDone,
    /// Config set `id` was picked.
    PickSet(i64),
    Manage,
    SearchEdited(String),
    ClearSearch,
    ShowAll(bool),
    /// Reset to defaults was pressed.
    AskReset,
    /// The reset confirmation's Reset and Cancel.
    ConfirmReset,
    CancelReset,
    Idle,
}

/// What the config panel asks for.
pub enum ConfigAction {
    Nothing,
    /// Read again which options are shown (the build changed).
    RefreshVisibility,
    ActivateSet(i64),
    ResetDefaults,
}

/// One frame of the config panel's bars, with `active_set` the active config
/// set. An undo or redo asks for the options' visibility to be read again;
/// picking another set asks to activate it; the reset asks for confirmation
/// first, and confirming asks for it; confirming or cancelling closes it.
pub fn config_step(c: ConfigUi, active_set: i64, e: ConfigEvent) -> (r: (ConfigUi, ConfigAction))
    ensures
        e is UndoRedoDone ==> r.0 == c && r.1 is RefreshVisibility,
        e matches ConfigEvent::PickSet(id) ==> r.0 == c && if id != active_set {
            r.1 matches ConfigAction::ActivateSet(a) && a == id
        } else {
            r.1 is Nothing
        },
        e is Manage ==> r.0 == (ConfigUi { manage_open: true, ..c }) && r.1 is Nothing,
        e matches ConfigEvent::SearchEdited(t) ==> r.0 == (ConfigUi { search: t, ..c }) && r.1
            is Nothing,
        e is ClearSearch ==> r.1 is Nothing && r.0.search@.len() == 0 && r.0.show_all == c.show_all
            && r.0.confirm_reset == c.confirm_reset && r.0.manage_open == c.manage_open,
        e matches ConfigEvent::ShowAll(b) ==> r.0 == (ConfigUi { show_all: b, ..c }) && r.1
            is Nothing,
        e is AskReset ==> r.0 == (ConfigUi { confirm_reset: true, ..c }) && r.1 is Nothing,
        e is ConfirmReset ==> r.0 == (ConfigUi { confirm_reset: false, ..c }) && if c.confirm_reset {
            r.1 is ResetDefaults
        } else {
            r.1 is Nothing
        },
        e is CancelReset ==> r.0 == (ConfigUi { confirm_reset: false, ..c }) && r.1 is Nothing,
        e is Idle ==> r.0 == c && r.1 is Nothing,
{
    match e {
        ConfigEvent::UndoRedoDone => (c, ConfigAction::RefreshVisibility),
        ConfigEvent::PickSet(id) => if id != active_set {
            (c, ConfigAction::ActivateSet(id))
        } else {
            (c, ConfigAction::Nothing)
        },
        ConfigEvent::Manage => (ConfigUi { manage_open: true, ..c }, ConfigAction::Nothing),
        ConfigEvent::SearchEdited(t) => (ConfigUi { search: t, ..c }, ConfigAction::Nothing),
        ConfigEvent::ClearSearch => (ConfigUi { search: String::new(), ..c }, ConfigAction::Nothing),
        ConfigEvent::ShowAll(b) => (ConfigUi { show_all: b, ..c }, ConfigAction::Nothing),
        ConfigEvent::AskReset => (ConfigUi { confirm_reset: true, ..c }, ConfigAction::Nothing),
        ConfigEvent::ConfirmReset => {
            let a = if c.confirm_reset {
                ConfigAction::ResetDefaults
            } else {
                ConfigAction::Nothing
            };
            (ConfigUi { confirm_reset: false, ..c }, a)
        },
        ConfigEvent::CancelReset => (ConfigUi { confirm_reset: false, ..c }, ConfigAction::Nothing),
        ConfigEvent::Idle => (c, ConfigAction::Nothing),
    }
}

/// How an option's row is marked.
#[derive(Clone, Copy, PartialEq, Eq, Structural, Debug)]
pub enum OptionMark {
    /// Listed only because its value is off its default: red, with a note.
    Invalid,
    /// Not relevant to the build: dim.
    Dim,
    Plain,
}

/// The mark of an option that is `invalid` under the current listing, or not
/// `relevant` to the build.
pub fn option_mark(invalid: bool, relevant: bool) -> (r: OptionMark)
    ensures
        r == if invalid {
            OptionMark::Invalid
        } else if !relevant {
            OptionMark::Dim
        } else {
            OptionMark::Plain
        },
{
    if invalid {
        OptionMark::Invalid
    } else if !relevant {
        OptionMark::Dim
    } else {
        OptionMark::Plain
    }
}

} // verus!
