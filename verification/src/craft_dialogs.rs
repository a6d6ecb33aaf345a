//! The dialogs that work on a crafted item: the affix editor, the anoint
//! dialog and the enchant dialog. Each frame is one event; the scripts' calls
//! and the roll values (floats) stay with the caller.

use vstd::prelude::*;
use crate::tabs::CraftUi;
use crate::text::{chars_of, same_chars, string_of, trim, trimmed};

verus! {

/// What loading an item's crafting data gave.
#[derive(Clone, Copy, PartialEq, Eq, Structural, Debug)]
pub enum FetchResult {
    Loaded,
    /// The item is gone or no longer crafted.
    Missing,
    Failed,
}

/// The affix editor: the item being edited, the item whose affix data is
/// held, the custom modifier line and whether it is a bench craft.
pub struct AffixEditor {
    pub edit_item: Option<i64>,
    pub cached_item: Option<i64>,
    pub custom_line: String,
    pub custom_crafted: bool,
}

/// The item whose affix data must be loaded before the editor shows: the
/// edited one, unless its data is the one held.
pub fn affix_needs_fetch(s: &AffixEditor) -> (r: Option<i64>)
    ensures
        r == match s.edit_item {
            Some(id) => if s.cached_item == Some(id) {
                None
            } else {
                Some(id)
            },
            None => None,
        },
{
    match s.edit_item {
        Some(id) => match s.cached_item {
            Some(c) => if c == id {
                None
            } else {
                Some(id)
            },
            None => Some(id),
        },
        None => None,
    }
}

/// The editor after loading item `id`'s data: held when loaded; a missing
/// item closes the editor and drops the data; a failed load closes it.
pub fn affix_after_fetch(s: AffixEditor, id: i64, f: FetchResult) -> (r: AffixEditor)
    ensures
        f is Loaded ==> r.edit_item == s.edit_item && r.cached_item == Some(id),
        f is Missing ==> r.edit_item is None && r.cached_item is None,
        f is Failed ==> r.edit_item is None && r.cached_item == s.cached_item,
        r.custom_line == s.custom_line,
        r.custom_crafted == s.custom_crafted,
{
    match f {
        FetchResult::Loaded => AffixEditor { cached_item: Some(id), ..s },
        FetchResult::Missing => AffixEditor { edit_item: None, cached_item: None, ..s },
        FetchResult::Failed => AffixEditor { edit_item: None, ..s },
    }
}

/// Which roll a newly set affix gets: the middle of its tier (for "None"),
/// the slot's current roll, or the slider's new position.
#[derive(Clone, Copy, PartialEq, Eq, Structural, Debug)]
pub enum RollSource {
    Middle,
    Current,
    Slider,
}

/// What the user did in the affix editor in a frame. A slot is named by
/// whether it is a prefix and its index, and carries the id of the mod it
/// holds now (`None` for an empty slot).
pub enum AffixEvent {
    /// "None" was picked for a slot.
    PickNone(bool, usize, String),
    /// A mod was picked for a slot: the slot, its current mod, the picked one.
    PickMod(bool, usize, String, String),
    /// A slot's roll slider was let go: the slot, its current mod, whether
    /// its tier has a range.
    Roll(bool, usize, String, bool),
    /// A cluster skill was picked: the current skill, the picked one and the
    /// node count.
    ClusterSkill(String, String, i64),
    /// The cluster node count was let go: the skill, the current and the new
    /// count.
    ClusterCount(String, i64, i64),
    /// The custom line was edited.
    CustomEdited(String),
    /// The bench-craft box was set.
    BenchToggled(bool),
    /// Add was pressed.
    AddCustom,
    Close,
    Idle,
}

/// What the affix editor asks the scripts for.
pub enum AffixAction {
    Nothing,
    /// Set slot (is prefix, index) to a mod, with a roll.
    SetAffix(bool, usize, String, RollSource),
    /// Set the cluster jewel's skill and node count.
    SetCluster(String, i64),
    /// Add a custom line, as a bench craft or not.
    AddCustom(String, bool),
}

/// The id of an empty slot.
pub open spec fn none_mod() -> Seq<char> {
    "None"@
}

fn is_none_mod(s: &String) -> (r: bool)
    ensures
        r == (s@ == none_mod()),
{
    same_chars(&chars_of(s.as_str()), &chars_of("None"))
}

/// One frame of the affix editor. Picking what a slot already holds asks for
/// nothing; "None" gets the middle roll and another mod keeps the slot's
/// roll; letting go of the roll slider of a filled slot with a ranged tier
/// sets its mod again at the slider's roll. A different cluster skill or
/// node count sets both. Add asks to add the trimmed custom line, unless it
/// is blank. Close ends the editing and drops the held data.
pub fn affix_editor_step(s: AffixEditor, e: AffixEvent) -> (r: (AffixEditor, AffixAction))
    ensures
        e is Close ==> r.0.edit_item is None && r.0.cached_item is None && r.0.custom_line
            == s.custom_line && r.0.custom_crafted == s.custom_crafted && r.1 is Nothing,
        e matches AffixEvent::CustomEdited(t) ==> r.0.custom_line == t && r.0.edit_item
            == s.edit_item && r.0.cached_item == s.cached_item && r.0.custom_crafted
            == s.custom_crafted && r.1 is Nothing,
        e matches AffixEvent::BenchToggled(b) ==> r.0.custom_crafted == b && r.0.edit_item
            == s.edit_item && r.0.cached_item == s.cached_item && r.0.custom_line == s.custom_line
            && r.1 is Nothing,
        !(e is Close || e is CustomEdited || e is BenchToggled) ==> r.0 == s,
        e matches AffixEvent::PickNone(p, i, sel) ==> if sel@ != none_mod() {
            r.1 matches AffixAction::SetAffix(p2, i2, m, roll) && p2 == p && i2 == i && m@
                == none_mod() && roll == RollSource::Middle
        } else {
            r.1 is Nothing
        },
        e matches AffixEvent::PickMod(p, i, sel, m) ==> if m@ != sel@ {
            r.1 matches AffixAction::SetAffix(p2, i2, m2, roll) && p2 == p && i2 == i && m2 == m
                && roll == RollSource::Current
        } else {
            r.1 is Nothing
        },
        e matches AffixEvent::Roll(p, i, sel, ranged) ==> if ranged && sel@ != none_mod() {
            r.1 matches AffixAction::SetAffix(p2, i2, m2, roll) && p2 == p && i2 == i && m2 == sel
                && roll == RollSource::Slider
        } else {
            r.1 is Nothing
        },
        e matches AffixEvent::ClusterSkill(cur, picked, n) ==> if picked@ != cur@ {
            r.1 matches AffixAction::SetCluster(k, c) && k == picked && c == n
        } else {
            r.1 is Nothing
        },
        e matches AffixEvent::ClusterCount(k, cur, n) ==> if n != cur {
            r.1 matches AffixAction::SetCluster(k2, c) && k2 == k && c == n
        } else {
            r.1 is Nothing
        },
        e is AddCustom ==> if trimmed(s.custom_line@).len() > 0 {
            r.1 matches AffixAction::AddCustom(l, b) && l@ == trimmed(s.custom_line@) && b
                == s.custom_crafted
        } else {
            r.1 is Nothing
        },
        e is Idle ==> r.1 is Nothing,
{
    match e {
        AffixEvent::PickNone(p, i, sel) => {
            if !is_none_mod(&sel) {
                let mut m = String::new();
                m.push_str("None");
                (s, AffixAction::SetAffix(p, i, m, RollSource::Middle))
            } else {
                (s, AffixAction::Nothing)
            }
        },
        AffixEvent::PickMod(p, i, sel, m) => {
            if !same_chars(&chars_of(m.as_str()), &chars_of(sel.as_str())) {
                (s, AffixAction::SetAffix(p, i, m, RollSource::Current))
            } else {
                (s, AffixAction::Nothing)
            }
        },
        AffixEvent::Roll(p, i, sel, ranged) => {
            if ranged && !is_none_mod(&sel) {
                (s, AffixAction::SetAffix(p, i, sel, RollSource::Slider))
            } else {
                (s, AffixAction::Nothing)
            }
        },
        AffixEvent::ClusterSkill(cur, picked, n) => {
            if !same_chars(&chars_of(picked.as_str()), &chars_of(cur.as_str())) {
                (s, AffixAction::SetCluster(picked, n))
            } else {
                (s, AffixAction::Nothing)
            }
        },
        AffixEvent::ClusterCount(k, cur, n) => {
            if n != cur {
                (s, AffixAction::SetCluster(k, n))
            } else {
                (s, AffixAction::Nothing)
            }
        },
        AffixEvent::CustomEdited(t) => (AffixEditor { custom_line: t, ..s }, AffixAction::Nothing),
        AffixEvent::BenchToggled(b) => (
            AffixEditor { custom_crafted: b, ..s },
            AffixAction::Nothing,
        ),
        AffixEvent::AddCustom => {
            let t = trim(&chars_of(s.custom_line.as_str()));
            if t.len() > 0 {
                let crafted = s.custom_crafted;
                (s, AffixAction::AddCustom(string_of(&t), crafted))
            } else {
                (s, AffixAction::Nothing)
            }
        },
        AffixEvent::Close => (
            AffixEditor { edit_item: None, cached_item: None, ..s },
            AffixAction::Nothing,
        ),
        AffixEvent::Idle => (s, AffixAction::Nothing),
    }
}

/// The editor after the scripts answered `a`: a change that went through
/// drops the held data so that it is loaded again, and an added custom line
/// clears the field; a failed call changes nothing.
pub fn affix_after_call(s: AffixEditor, a: &AffixAction, ok: bool) -> (r: AffixEditor)
    ensures
        ok && !(a is Nothing) ==> r.cached_item is None,
        !(ok && !(a is Nothing)) ==> r.cached_item == s.cached_item,
        ok && a is AddCustom ==> r.custom_line@.len() == 0,
        !(ok && a is AddCustom) ==> r.custom_line == s.custom_line,
        r.edit_item == s.edit_item,
        r.custom_crafted == s.custom_crafted,
{
    if !ok {
        return s;
    }
    match a {
        AffixAction::Nothing => s,
        AffixAction::AddCustom(_, _) => AffixEditor {
            cached_item: None,
            custom_line: String::new(),
            ..s
        },
        _ => AffixEditor { cached_item: None, ..s },
    }
}

/// The anoint slot for an item with `count` slots: `chosen`, kept within 1
/// and the number of slots (at least 1).
pub open spec fn anoint_slot_of(chosen: usize, count: usize) -> usize {
    let max: usize = if count < 1 {
        1
    } else {
        count
    };
    if chosen < 1 {
        1
    } else if chosen > max {
        max
    } else {
        chosen
    }
}

/// What the user did in the anoint dialog in a frame.
pub enum AnointEvent {
    /// Remove was pressed on current anoint `i` (1-based).
    Remove(usize),
    /// Slot `s` was chosen.
    PickSlot(usize),
    /// The search text was edited.
    Search(String),
    /// A notable was picked from the list.
    PickNotable(String),
    /// Anoint was pressed.
    Anoint,
    Close,
    Idle,
}

/// One frame of the anoint dialog for an item with `slot_count` slots, with
/// the key `preview` of the held stat preview. Remove asks to clear that
/// anoint; Anoint, once a notable is picked, asks to put it into the chosen
/// slot; Close ends the dialog and drops the preview. The request is the
/// notable (`None` to clear) and the slot.
pub fn anoint_dialog_step(
    ui: CraftUi,
    preview: Option<(i64, usize, String)>,
    slot_count: usize,
    e: AnointEvent,
) -> (r: (CraftUi, Option<(i64, usize, String)>, Option<(Option<String>, usize)>))
    ensures
        e matches AnointEvent::Remove(i) ==> r.0 == ui && r.1 == preview && r.2 == Some(
            (None::<String>, i),
        ),
        e matches AnointEvent::PickSlot(s) ==> r.0 == (CraftUi { anoint_slot: s, ..ui }) && r.1
            == preview && r.2 is None,
        e matches AnointEvent::Search(t) ==> r.0 == (CraftUi { anoint_search: t, ..ui }) && r.1
            == preview && r.2 is None,
        e matches AnointEvent::PickNotable(n) ==> r.0 == (CraftUi { anoint_selected: Some(n), ..ui })
            && r.1 == preview && r.2 is None,
        e is Anoint ==> r.0 == ui && r.1 == preview && r.2 == match ui.anoint_selected {
            Some(n) => Some((Some(n), anoint_slot_of(ui.anoint_slot, slot_count))),
            None => None,
        },
        e is Close ==> r.0 == (CraftUi { anoint_item: None, ..ui }) && r.1 is None && r.2 is None,
        e is Idle ==> r.0 == ui && r.1 == preview && r.2 is None,
{
    match e {
        AnointEvent::Remove(i) => (ui, preview, Some((None, i))),
        AnointEvent::PickSlot(s) => (CraftUi { anoint_slot: s, ..ui }, preview, None),
        AnointEvent::Search(t) => (CraftUi { anoint_search: t, ..ui }, preview, None),
        AnointEvent::PickNotable(n) => (CraftUi { anoint_selected: Some(n), ..ui }, preview, None),
        AnointEvent::Anoint => {
            let slot = ui.anoint_slot_for(slot_count);
            let req = match &ui.anoint_selected {
                Some(n) => Some((Some(n.clone()), slot)),
                None => None,
            };
            (ui, preview, req)
        },
        AnointEvent::Close => (CraftUi { anoint_item: None, ..ui }, None, None),
        AnointEvent::Idle => (ui, preview, None),
    }
}

/// The held stat preview after an anoint request was answered: dropped when
/// it went through, so that it is worked out again.
pub fn anoint_after_call(preview: Option<(i64, usize, String)>, ok: bool) -> (r: Option<
    (i64, usize, String),
>)
    ensures
        r == if ok {
            None
        } else {
            preview
        },
{
    if ok {
        None
    } else {
        preview
    }
}

/// The skills an item's enchantments can be for, and those the build uses.
pub struct EnchantOptions {
    pub has_skills: bool,
    pub skills: Vec<String>,
    pub used_skills: Vec<String>,
}

/// The enchant dialog as it opens on `opts`: the first skill the build uses
/// (else the first skill) is chosen, and all skills are listed when the build
/// uses none.
pub fn enchant_opened(ui: CraftUi, opts: &EnchantOptions) -> (r: CraftUi)
    ensures
        r == (CraftUi {
            enchant_skill: if opts.used_skills@.len() > 0 {
                Some(opts.used_skills@[0])
            } else if opts.skills@.len() > 0 {
                Some(opts.skills@[0])
            } else {
                None
            },
            enchant_all_skills: opts.used_skills@.len() == 0,
            ..ui
        }),
{
    let skill = if opts.used_skills.len() > 0 {
        Some(opts.used_skills[0].clone())
    } else if opts.skills.len() > 0 {
        Some(opts.skills[0].clone())
    } else {
        None
    };
    CraftUi { enchant_skill: skill, enchant_all_skills: opts.used_skills.len() == 0, ..ui }
}

/// Whether the skill list shows every skill rather than those the build uses.
pub fn enchant_lists_all(ui: &CraftUi, opts: &EnchantOptions) -> (r: bool)
    ensures
        r == (ui.enchant_all_skills || opts.used_skills@.len() == 0),
{
    ui.enchant_all_skills || opts.used_skills.len() == 0
}

/// The skill the enchantments are listed for: the chosen one, for items
/// whose enchantments go by skill.
pub open spec fn enchant_key(ui: CraftUi, has_skills: bool) -> Option<String> {
    if has_skills {
        ui.enchant_skill
    } else {
        None
    }
}

fn clone_opt(o: &Option<String>) -> (r: Option<String>)
    ensures
        r == *o,
{
    match o {
        Some(s) => Some(s.clone()),
        None => None,
    }
}

/// Whether the list of enchantments held for `cache` must be loaded again
/// for item `item` and skill `key`.
pub fn enchant_catalog_stale(cache: &Option<(i64, Option<String>)>, item: i64, key: &Option<String>) -> (r: bool)
    ensures
        r == !(cache matches Some(c) && c.0 == item && match (c.1, *key) {
            (Some(a), Some(b)) => a@ == b@,
            (None, None) => true,
            _ => false,
        }),
{
    match cache {
        Some(c) => {
            if c.0 != item {
                return true;
            }
            match (&c.1, key) {
                (Some(a), Some(b)) => !same_chars(&chars_of(a.as_str()), &chars_of(b.as_str())),
                (None, None) => false,
                _ => true,
            }
        },
        None => true,
    }
}

/// What the user did in the enchant dialog in a frame.
pub enum EnchantEvent {
    PickSkill(String),
    /// The All skills box was set.
    ListAll(bool),
    /// Line `i` (1-based) of source `name` was picked.
    Select(String, usize),
    Enchant,
    RemoveEnchant,
    Close,
    Idle,
}

/// What the enchant dialog asks the scripts for.
pub enum EnchantAction {
    Nothing,
    /// Apply line `i` of a source, for a skill.
    Apply(Option<String>, String, usize),
    Remove,
}

/// One frame of the enchant dialog. Picking a skill chooses it and drops the
/// picked line; the All skills box can only be set when the build uses some
/// skill; Enchant, once a line is picked, applies it for the listed skill;
/// Remove enchant removes it; Close ends the dialog.
pub fn enchant_dialog_step(ui: CraftUi, opts: &EnchantOptions, e: EnchantEvent) -> (r: (
    CraftUi,
    EnchantAction,
))
    ensures
        e matches EnchantEvent::PickSkill(k) ==> r.0 == (CraftUi {
            enchant_skill: Some(k),
            enchant_selection: None,
            ..ui
        }) && r.1 is Nothing,
        e matches EnchantEvent::ListAll(b) ==> r.1 is Nothing && if opts.used_skills@.len() > 0 {
            r.0 == (CraftUi { enchant_all_skills: b, ..ui })
        } else {
            r.0 == ui
        },
        e matches EnchantEvent::Select(n, i) ==> r.0 == (CraftUi {
            enchant_selection: Some((n, i)),
            ..ui
        }) && r.1 is Nothing,
        e is Enchant ==> r.0 == ui && match ui.enchant_selection {
            Some(sel) => r.1 matches EnchantAction::Apply(k, n, i) && k == enchant_key(
                ui,
                opts.has_skills,
            ) && n == sel.0 && i == sel.1,
            None => r.1 is Nothing,
        },
        e is RemoveEnchant ==> r.0 == ui && r.1 is Remove,
        e is Close ==> r.0 == (CraftUi { enchant_item: None, ..ui }) && r.1 is Nothing,
        e is Idle ==> r.0 == ui && r.1 is Nothing,
{
    match e {
        EnchantEvent::PickSkill(k) => (
            CraftUi { enchant_skill: Some(k), enchant_selection: None, ..ui },
            EnchantAction::Nothing,
        ),
        EnchantEvent::ListAll(b) => {
            if opts.used_skills.len() > 0 {
                (CraftUi { enchant_all_skills: b, ..ui }, EnchantAction::Nothing)
            } else {
                (ui, EnchantAction::Nothing)
            }
        },
        EnchantEvent::Select(n, i) => (
            CraftUi { enchant_selection: Some((n, i)), ..ui },
            EnchantAction::Nothing,
        ),
        EnchantEvent::Enchant => {
            let a = match &ui.enchant_selection {
                Some(sel) => {
                    let key = if opts.has_skills {
                        clone_opt(&ui.enchant_skill)
                    } else {
                        None
                    };
                    EnchantAction::Apply(key, sel.0.clone(), sel.1)
                },
                None => EnchantAction::Nothing,
            };
            (ui, a)
        },
        EnchantEvent::RemoveEnchant => (ui, EnchantAction::Remove),
        EnchantEvent::Close => (CraftUi { enchant_item: None, ..ui }, EnchantAction::Nothing),
        EnchantEvent::Idle => (ui, EnchantAction::Nothing),
    }
}

} // verus!
