//! The tabs of an open build, and the crafting dialogs' state.

use vstd::prelude::*;
use crate::text::{chars_of, contains, contains_seq, same_chars, string_of, trim, trimmed};
use crate::item_types::{lowercase, to_lowercase};

verus! {

/// Which tab is currently active in the build view.
#[derive(Debug, Clone, Copy, PartialEq, Eq, Structural)]
pub enum BuildTab {
    Tree,
    Skills,
    Items,
    Config,
    Import,
}

/// The caption of a tab's button.
pub open spec fn tab_caption(tab: BuildTab) -> Seq<char> {
    match tab {
        BuildTab::Tree => "Tree"@,
        BuildTab::Skills => "Skills"@,
        BuildTab::Items => "Items"@,
        BuildTab::Config => "Config"@,
        BuildTab::Import => "Import/Export"@,
    }
}

impl BuildTab {
    /// The tabs in the order their buttons are shown.
    pub fn all() -> (tabs: Vec<BuildTab>)
        ensures
            tabs@ == seq![
                BuildTab::Tree,
                BuildTab::Skills,
                BuildTab::Items,
                BuildTab::Config,
                BuildTab::Import,
            ],
    {
        let mut tabs = Vec::new();
        tabs.push(BuildTab::Tree);
        tabs.push(BuildTab::Skills);
        tabs.push(BuildTab::Items);
        tabs.push(BuildTab::Config);
        tabs.push(BuildTab::Import);
        tabs
    }

    /// The caption of this tab's button.
    pub fn label(&self) -> (s: &'static str)
        ensures
            s@ == tab_caption(*self),
    {
        match self {
            BuildTab::Tree => "Tree",
            BuildTab::Skills => "Skills",
            BuildTab::Items => "Items",
            BuildTab::Config => "Config",
            BuildTab::Import => "Import/Export",
        }
    }
}

/// The rarities a new item can be crafted with: shown name and item-text name.
pub open spec fn craft_rarity(i: int) -> (Seq<char>, Seq<char>) {
    if i == 0 {
        ("Normal"@, "NORMAL"@)
    } else if i == 1 {
        ("Magic"@, "MAGIC"@)
    } else {
        ("Rare"@, "RARE"@)
    }
}

/// The number of craftable rarities.
pub const CRAFT_RARITY_COUNT: usize = 3;

/// Craftable rarity `i`: its shown name and its name in item text.
pub fn craft_rarity_names(i: usize) -> (r: (&'static str, &'static str))
    requires
        i < CRAFT_RARITY_COUNT,
    ensures
        (r.0@, r.1@) == craft_rarity(i as int),
{
    if i == 0 {
        ("Normal", "NORMAL")
    } else if i == 1 {
        ("Magic", "MAGIC")
    } else {
        ("Rare", "RARE")
    }
}

/// New-item craft dialog state.
pub struct NewCraftDialog {
    pub rarity_idx: usize,
    pub type_idx: usize,
    pub base_idx: usize,
    pub title: String,
    pub types: Vec<String>,
    pub bases: Vec<String>,
}

impl NewCraftDialog {
    /// The dialog as the craft button opens it: Rare, the first base type and
    /// its first base, no name.
    pub fn new(types: Vec<String>, bases: Vec<String>) -> (d: NewCraftDialog)
        ensures
            d.rarity_idx == 2,
            d.type_idx == 0,
            d.base_idx == 0,
            d.title@.len() == 0,
            d.types@ == types@,
            d.bases@ == bases@,
    {
        NewCraftDialog { rarity_idx: 2, type_idx: 0, base_idx: 0, title: String::new(), types, bases }
    }

    /// Choose base type `i`, whose bases are `bases`: they replace the list
    /// and the first one is selected.
    pub fn select_type(&mut self, i: usize, bases: Vec<String>)
        ensures
            final(self).type_idx == i,
            final(self).base_idx == 0,
            final(self).bases@ == bases@,
            final(self).rarity_idx == old(self).rarity_idx,
            final(self).title == old(self).title,
            final(self).types == old(self).types,
    {
        self.type_idx = i;
        self.base_idx = 0;
        self.bases = bases;
    }

    /// What the create button crafts: the rarity's name in item text, the
    /// base type, the 1-based base position and the trimmed name.
    pub fn craft_request(&self) -> (r: (&'static str, String, usize, String))
        requires
            self.rarity_idx < CRAFT_RARITY_COUNT,
            self.type_idx < self.types@.len(),
            self.base_idx < usize::MAX,
        ensures
            r.0@ == craft_rarity(self.rarity_idx as int).1,
            r.1@ == self.types@[self.type_idx as int]@,
            r.2 == self.base_idx + 1,
            r.3@ == trimmed(self.title@),
    {
        let (_, rarity) = craft_rarity_names(self.rarity_idx);
        let base_type = self.types[self.type_idx].clone();
        let title = string_of(&trim(&chars_of(self.title.as_str())));
        (rarity, base_type, self.base_idx + 1, title)
    }
}

/// Whether crafting an item of rarity `rarity` (its name in item text) opens
/// the affix editor: every rarity but Normal does.
pub fn opens_affix_editor(rarity: &str) -> (r: bool)
    ensures
        r == (rarity@ != "NORMAL"@),
{
    !same_chars(&chars_of(rarity), &chars_of("NORMAL"))
}

/// What the user did in the new-item dialog in a frame.
pub enum CraftEvent {
    /// Picked rarity `i`.
    Rarity(usize),
    /// Picked base type `i`.
    BaseType(usize),
    /// Picked base `i`.
    Base(usize),
    Create,
    Cancel,
    Idle,
}

/// What the new-item dialog asks the scripts for.
pub enum CraftAction {
    Nothing,
    /// The bases of base type `i`, to hand to `select_type`.
    LoadBases(usize),
    /// Craft an item: the rarity's name in item text, the base type, the
    /// 1-based base position and the name.
    Craft(&'static str, String, usize, String),
}

/// One frame of the new-item dialog: a picked rarity or base is taken; a
/// different base type asks for its bases; Create, offered once there are
/// bases, asks to craft what `craft_request` describes; Cancel closes the
/// dialog.
pub fn craft_dialog_step(d: NewCraftDialog, e: CraftEvent) -> (r: (Option<NewCraftDialog>, CraftAction))
    requires
        e is Create && d.bases@.len() > 0 ==> d.rarity_idx < CRAFT_RARITY_COUNT && d.type_idx
            < d.types@.len() && d.base_idx < usize::MAX,
    ensures
        e is Cancel ==> r.0 is None && r.1 is Nothing,
        !(e is Cancel) ==> r.0 is Some,
        e matches CraftEvent::Rarity(i) ==> (r.0 matches Some(n) && n.rarity_idx == i && n.type_idx
            == d.type_idx && n.base_idx == d.base_idx && n.title == d.title && n.types == d.types
            && n.bases == d.bases) && r.1 is Nothing,
        e matches CraftEvent::Base(i) ==> (r.0 matches Some(n) && n.base_idx == i && n.rarity_idx
            == d.rarity_idx && n.type_idx == d.type_idx && n.title == d.title && n.types == d.types
            && n.bases == d.bases) && r.1 is Nothing,
        e matches CraftEvent::BaseType(i) ==> (r.0 matches Some(n) && n.rarity_idx == d.rarity_idx
            && n.type_idx == d.type_idx && n.base_idx == d.base_idx && n.title == d.title && n.types
            == d.types && n.bases == d.bases) && (if i != d.type_idx && i < d.types@.len() {
            r.1 matches CraftAction::LoadBases(j) && j == i
        } else {
            r.1 is Nothing
        }),
        e is Create && d.bases@.len() > 0 ==> (r.0 matches Some(n) && n.rarity_idx == d.rarity_idx
            && n.type_idx == d.type_idx && n.base_idx == d.base_idx && n.title == d.title && n.types
            == d.types && n.bases == d.bases) && (r.1 matches CraftAction::Craft(rarity, t, b, name)
            && rarity@ == craft_rarity(d.rarity_idx as int).1 && t@ == d.types@[d.type_idx as int]@
            && b == d.base_idx + 1 && name@ == trimmed(d.title@)),
        e is Create && d.bases@.len() == 0 ==> r.1 is Nothing,
        e is BaseType || e is Create || e is Idle ==> r.0 == Some(d),
        e is Idle ==> r.1 is Nothing && (r.0 matches Some(n) && n.rarity_idx == d.rarity_idx
            && n.type_idx == d.type_idx && n.base_idx == d.base_idx && n.title == d.title && n.types
            == d.types && n.bases == d.bases),
{
    match e {
        CraftEvent::Rarity(i) => {
            let mut n = d;
            n.rarity_idx = i;
            (Some(n), CraftAction::Nothing)
        },
        CraftEvent::Base(i) => {
            let mut n = d;
            n.base_idx = i;
            (Some(n), CraftAction::Nothing)
        },
        CraftEvent::BaseType(i) => {
            if i != d.type_idx && i < d.types.len() {
                (Some(d), CraftAction::LoadBases(i))
            } else {
                (Some(d), CraftAction::Nothing)
            }
        },
        CraftEvent::Create => {
            if d.bases.len() > 0 {
                let (rarity, t, b, name) = d.craft_request();
                (Some(d), CraftAction::Craft(rarity, t, b, name))
            } else {
                (Some(d), CraftAction::Nothing)
            }
        },
        CraftEvent::Cancel => (None, CraftAction::Nothing),
        CraftEvent::Idle => (Some(d), CraftAction::Nothing),
    }
}

/// After a craft: the dialog closes when an item came out, and the item's
/// affixes are edited next unless it is a Normal one; nothing changes when no
/// item came out.
pub fn after_craft(crafted: Option<i64>, rarity: &str) -> (r: (bool, Option<i64>))
    ensures
        crafted is None ==> r == (false, None::<i64>),
        crafted matches Some(id) ==> r.0 && r.1 == if rarity@ != "NORMAL"@ {
            Some(id)
        } else {
            None
        },
{
    match crafted {
        Some(id) => (true, if opens_affix_editor(rarity) {
            Some(id)
        } else {
            None
        }),
        None => (false, None),
    }
}

/// A notable that an amulet can be anointed with, and its stat lines.
pub struct AnointNotable {
    pub name: String,
    pub stats: Vec<String>,
}

/// Notable `n` is listed for the lower-cased search `key`: every one for an
/// empty search, else one whose lower-cased name or one of whose lower-cased
/// stat lines holds it.
pub open spec fn notable_listed(n: AnointNotable, key: Seq<char>) -> bool {
    key.len() == 0 || contains_seq(lowercase(n.name@), key) || exists|j: int|
        0 <= j < n.stats@.len() && contains_seq(lowercase(#[trigger] n.stats@[j]@), key)
}

/// The positions of the notables the anoint dialog lists for the search text
/// as typed (trimmed and lower-cased first), in list order.
pub fn filter_anoint_notables(notables: &Vec<AnointNotable>, search: &str) -> (r: Vec<usize>)
    ensures
        r@ == Seq::new(notables@.len(), |k: int| k as usize).filter(
            |k: usize| notable_listed(notables@[k as int], lowercase(trimmed(search@))),
        ),
{
    let trimmed_search = string_of(&trim(&chars_of(search)));
    let key_s = to_lowercase(trimmed_search.as_str());
    let key = chars_of(key_s.as_str());
    let ghost kv = key@;
    let ghost keep = |k: usize| notable_listed(notables@[k as int], kv);
    let ghost all = Seq::new(notables@.len(), |k: int| k as usize);
    let mut r: Vec<usize> = Vec::new();
    let mut k: usize = 0;
    while k < notables.len()
        invariant
            k <= notables@.len(),
            key@ == kv,
            all == Seq::new(notables@.len(), |k: int| k as usize),
            keep == (|k: usize| notable_listed(notables@[k as int], kv)),
            r@ == all.take(k as int).filter(keep),
        decreases notables@.len() - k,
    {
        reveal_with_fuel(Seq::<_>::filter, 1);
        assert(all.take(k + 1).drop_last() == all.take(k as int));
        assert(all.take(k + 1).last() == k);
        let n = &notables[k];
        let mut hit = key.len() == 0;
        if !hit {
            let name = to_lowercase(n.name.as_str());
            hit = contains(&chars_of(name.as_str()), &key);
        }
        if !hit {
            let mut j: usize = 0;
            while j < n.stats.len()
                invariant
                    j <= n.stats@.len(),
                    key@ == kv,
                    !hit ==> forall|i: int| 0 <= i < j ==> !contains_seq(lowercase(#[trigger] n.stats@[i]@), kv),
                    hit ==> exists|i: int| 0 <= i < n.stats@.len() && contains_seq(lowercase(#[trigger] n.stats@[i]@), kv),
                decreases n.stats@.len() - j,
            {
                let line = to_lowercase(n.stats[j].as_str());
                if contains(&chars_of(line.as_str()), &key) {
                    hit = true;
                }
                j = j + 1;
            }
        }
        assert(hit == keep(k));
        if hit {
            r.push(k);
        }
        k = k + 1;
    }
    assert(all.take(notables@.len() as int) == all);
    r
}

/// Whether the cached anoint preview is for item `item`, slot `slot` and
/// notable `name`; otherwise it is worked out again.
pub fn preview_cache_fresh(cache: &Option<(i64, usize, String)>, item: i64, slot: usize, name: &str) -> (r: bool)
    ensures
        r == (cache matches Some(c) && c.0 == item && c.1 == slot && c.2@ == name@),
{
    match cache {
        Some(c) => c.0 == item && c.1 == slot && same_chars(&chars_of(c.2.as_str()), &chars_of(name)),
        None => false,
    }
}

/// Crafting UI state (survives panel rebuilds).
pub struct CraftUi {
    pub new_dialog: Option<NewCraftDialog>,
    /// Item whose affixes are being edited.
    pub edit_item: Option<i64>,
    pub custom_line: String,
    pub custom_crafted: bool,
    /// Item being anointed.
    pub anoint_item: Option<i64>,
    pub anoint_search: String,
    pub anoint_selected: Option<String>,
    /// Target anoint slot (1-based; several on items with more than one).
    pub anoint_slot: usize,
    /// Item being enchanted.
    pub enchant_item: Option<i64>,
    pub enchant_skill: Option<String>,
    pub enchant_all_skills: bool,
    /// (source name, 1-based line index) selected in the enchant dialog.
    pub enchant_selection: Option<(String, usize)>,
}

impl Default for CraftUi {
    fn default() -> (c: CraftUi)
        ensures
            c.new_dialog is None,
            c.edit_item is None,
            c.custom_line@.len() == 0,
            !c.custom_crafted,
            c.anoint_item is None,
            c.anoint_search@.len() == 0,
            c.anoint_selected is None,
            c.anoint_slot == 0,
            c.enchant_item is None,
            c.enchant_skill is None,
            !c.enchant_all_skills,
            c.enchant_selection is None,
    {
        CraftUi {
            new_dialog: None,
            edit_item: None,
            custom_line: String::new(),
            custom_crafted: false,
            anoint_item: None,
            anoint_search: String::new(),
            anoint_selected: None,
            anoint_slot: 0,
            enchant_item: None,
            enchant_skill: None,
            enchant_all_skills: false,
            enchant_selection: None,
        }
    }
}

impl CraftUi {
    /// The anoint slot to use on an item with `slot_count` slots: the chosen
    /// one, kept within 1 and the number of slots (at least 1).
    pub fn anoint_slot_for(&self, slot_count: usize) -> (s: usize)
        ensures
            s == (if self.anoint_slot < 1 {
                1
            } else if self.anoint_slot > (if slot_count < 1 {
                1
            } else {
                slot_count
            }) {
                if slot_count < 1 {
                    1
                } else {
                    slot_count
                }
            } else {
                self.anoint_slot
            }),
    {
        let max = if slot_count < 1 {
            1
        } else {
            slot_count
        };
        if self.anoint_slot < 1 {
            1
        } else if self.anoint_slot > max {
            max
        } else {
            self.anoint_slot
        }
    }
}

} // verus!
