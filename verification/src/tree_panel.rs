//! The passive tree panel's decisions around the tree itself: its toolbar
//! (spec choice, version conversion, comparison, search), the spec manager
//! and the conversion popup. Camera placement is floating point and stays
//! with the caller, which also makes the scripts' calls.

use vstd::prelude::*;
use crate::text::{chars_of, same_chars, string_of, trim, trimmed};
use crate::tree_nodes::{next_search_cycle, search_step};
use crate::tree_specs::{prompt_text_of, spec_action_rebuilds, spec_prompt_text, SpecAction};

verus! {

/// A tree version conversion waiting for confirmation: the target version's
/// id and shown name, whether every spec is converted, and whether the
/// active spec's subtype is ignored when matching the version.
pub struct ConvertRequest {
    pub version: String,
    pub display: String,
    pub all: bool,
    pub ignore_sub_type: bool,
}

/// The tree toolbar's state; specs are numbered from 1, and a compare index
/// of 0 means none chosen yet.
pub struct TreeToolbar {
    pub active_spec: usize,
    pub manage_open: bool,
    pub convert: Option<ConvertRequest>,
    pub compare_enabled: bool,
    pub compare_index: usize,
    pub search: String,
    pub search_cycle: Option<usize>,
}

/// What the user did on the toolbar in a frame.
pub enum ToolbarEvent {
    /// Spec `i` was picked in the spec list.
    PickSpec(usize),
    /// Manage... was pressed.
    Manage,
    /// A version was picked: its id, its shown name, and the active spec's
    /// version id.
    PickVersion(String, String, String),
    /// A banner button to convert to the latest version: its id, its shown
    /// name, and whether every spec is converted.
    ConvertLatest(String, String, bool),
    /// The Compare box was set.
    CompareToggled(bool),
    /// Spec `i` was picked to compare with.
    PickCompare(usize),
    SearchEdited(String),
    /// Enter or an arrow asked for the next (or previous) of `count` matches.
    Jump(bool, usize),
    ClearSearch,
    Idle,
}

/// What the toolbar asks for.
pub enum ToolbarAction {
    Nothing,
    /// Make spec `i` the active one.
    SwitchSpec(usize),
    /// Find the matches of the search text again.
    FindMatches,
    /// Forget the matches.
    ClearMatches,
    /// Work the comparison out again.
    DropCompareDiff,
    /// Centre on match `k` of the matches in tree order.
    JumpTo(usize),
}

/// One frame of the tree toolbar. Picking another spec asks to switch to it;
/// picking another version, or a banner's convert button, opens the
/// conversion popup; turning Compare on compares with the active spec when
/// none was chosen; editing the search forgets the match position; a jump
/// with matches moves to the next or previous one, wrapping around.
pub fn tree_toolbar_step(t: TreeToolbar, e: ToolbarEvent) -> (r: (TreeToolbar, ToolbarAction))
    ensures
        e matches ToolbarEvent::PickSpec(i) ==> r.0 == t && if i != t.active_spec {
            r.1 matches ToolbarAction::SwitchSpec(j) && j == i
        } else {
            r.1 is Nothing
        },
        e is Manage ==> r.0 == (TreeToolbar { manage_open: true, ..t }) && r.1 is Nothing,
        e matches ToolbarEvent::PickVersion(id, shown, active) ==> r.1 is Nothing && if id@
            != active@ {
            r.0 == (TreeToolbar {
                convert: Some(
                    ConvertRequest { version: id, display: shown, all: false, ignore_sub_type: true },
                ),
                ..t
            })
        } else {
            r.0 == t
        },
        e matches ToolbarEvent::ConvertLatest(id, shown, all) ==> r.1 is Nothing && r.0 == (
        TreeToolbar {
            convert: Some(
                ConvertRequest { version: id, display: shown, all: all, ignore_sub_type: false },
            ),
            ..t
        }),
        e matches ToolbarEvent::CompareToggled(b) ==> r.1 is DropCompareDiff && r.0 == (
        TreeToolbar {
            compare_enabled: b,
            compare_index: if b && t.compare_index == 0 {
                t.active_spec
            } else {
                t.compare_index
            },
            ..t
        }),
        e matches ToolbarEvent::PickCompare(i) ==> r.1 is Nothing && r.0 == (TreeToolbar {
            compare_index: i,
            ..t
        }),
        e matches ToolbarEvent::SearchEdited(s) ==> r.1 is FindMatches && r.0 == (TreeToolbar {
            search: s,
            search_cycle: None,
            ..t
        }),
        e matches ToolbarEvent::Jump(forward, count) ==> if count > 0 {
            r.0 == (TreeToolbar {
                search_cycle: Some(search_step(t.search_cycle, count as nat, forward) as usize),
                ..t
            }) && (r.1 matches ToolbarAction::JumpTo(k) && k == search_step(
                t.search_cycle,
                count as nat,
                forward,
            ) && k < count)
        } else {
            r.0 == t && r.1 is Nothing
        },
        e is ClearSearch ==> r.1 is ClearMatches && r.0.search@.len() == 0 && r.0.search_cycle
            is None && r.0.active_spec == t.active_spec && r.0.manage_open == t.manage_open
            && r.0.convert == t.convert && r.0.compare_enabled == t.compare_enabled
            && r.0.compare_index == t.compare_index,
        e is Idle ==> r.0 == t && r.1 is Nothing,
{
    match e {
        ToolbarEvent::PickSpec(i) => {
            if i != t.active_spec {
                (t, ToolbarAction::SwitchSpec(i))
            } else {
                (t, ToolbarAction::Nothing)
            }
        },
        ToolbarEvent::Manage => (TreeToolbar { manage_open: true, ..t }, ToolbarAction::Nothing),
        ToolbarEvent::PickVersion(id, shown, active) => {
            if !same_chars(&chars_of(id.as_str()), &chars_of(active.as_str())) {
                (
                    TreeToolbar {
                        convert: Some(
                            ConvertRequest {
                                version: id,
                                display: shown,
                                all: false,
                                ignore_sub_type: true,
                            },
                        ),
                        ..t
                    },
                    ToolbarAction::Nothing,
                )
            } else {
                (t, ToolbarAction::Nothing)
            }
        },
        ToolbarEvent::ConvertLatest(id, shown, all) => (
            TreeToolbar {
                convert: Some(
                    ConvertRequest { version: id, display: shown, all, ignore_sub_type: false },
                ),
                ..t
            },
            ToolbarAction::Nothing,
        ),
        ToolbarEvent::CompareToggled(b) => {
            let index = if b && t.compare_index == 0 {
                t.active_spec
            } else {
                t.compare_index
            };
            (
                TreeToolbar { compare_enabled: b, compare_index: index, ..t },
                ToolbarAction::DropCompareDiff,
            )
        },
        ToolbarEvent::PickCompare(i) => (
            TreeToolbar { compare_index: i, ..t },
            ToolbarAction::Nothing,
        ),
        ToolbarEvent::SearchEdited(s) => (
            TreeToolbar { search: s, search_cycle: None, ..t },
            ToolbarAction::FindMatches,
        ),
        ToolbarEvent::Jump(forward, count) => {
            if count > 0 {
                let next = next_search_cycle(t.search_cycle, count, forward);
                let k = match next {
                    Some(k) => k,
                    None => 0,
                };
                (TreeToolbar { search_cycle: Some(k), ..t }, ToolbarAction::JumpTo(k))
            } else {
                (t, ToolbarAction::Nothing)
            }
        },
        ToolbarEvent::ClearSearch => (
            TreeToolbar { search: String::new(), search_cycle: None, ..t },
            ToolbarAction::ClearMatches,
        ),
        ToolbarEvent::Idle => (t, ToolbarAction::Nothing),
    }
}

/// The toolbar after a switch to spec `index` was answered: it becomes the
/// active one when the switch went through.
pub fn after_spec_switch(t: TreeToolbar, index: usize, ok: bool) -> (r: TreeToolbar)
    ensures
        r == if ok {
            TreeToolbar { active_spec: index, ..t }
        } else {
            t
        },
{
    if ok {
        TreeToolbar { active_spec: index, ..t }
    } else {
        t
    }
}

/// The version banner: shown when the active spec is from an older version
/// and a latest version is known, with a button to convert every spec when
/// there is more than one.
pub fn convert_offer(active_outdated: bool, has_latest: bool, spec_count: usize) -> (r: (bool, bool))
    ensures
        r.0 == (active_outdated && has_latest),
        r.1 == (active_outdated && has_latest && spec_count > 1),
{
    let shown = active_outdated && has_latest;
    (shown, shown && spec_count > 1)
}

/// Whether the allocation of compare spec `index` must be read: comparison is
/// on, a spec is chosen, and the one held is another (or none).
pub fn compare_fetch_needed(enabled: bool, index: usize, cached: Option<usize>) -> (r: bool)
    ensures
        r == (enabled && index > 0 && cached != Some(index)),
{
    enabled && index > 0 && match cached {
        Some(c) => c != index,
        None => true,
    }
}

/// Whether the matches must be found again after a frame that changed the
/// tree: when there is search text.
pub fn matches_stale_after_change(changed: bool, search: &str) -> (r: bool)
    ensures
        r == (changed && trimmed(search@).len() > 0),
{
    changed && trim(&chars_of(search)).len() > 0
}

/// The mastery popup in a frame: a picked effect is selected and closes the
/// popup, as does Cancel. The result is the effect to select and whether the
/// popup closes.
pub fn mastery_popup_step(picked: Option<u32>, cancel: bool) -> (r: (Option<u32>, bool))
    ensures
        r.0 == picked,
        r.1 == (picked is Some || cancel),
{
    (picked, picked.is_some() || cancel)
}

/// The spec manager's state: whether it is open, the pending name prompt
/// (what it is for and its text), the tree link to import and its error, and
/// the exported link.
pub struct ManageSpecs {
    pub open: bool,
    pub prompt: Option<(SpecAction, String)>,
    pub import_url: String,
    pub import_error: Option<String>,
    pub export_url: Option<String>,
}

/// What the user did in the spec manager in a frame.
pub enum ManageEvent {
    /// Activate was pressed on spec `i`.
    Activate(usize),
    /// Delete was pressed on spec `i`.
    Delete(usize),
    /// Rename was pressed on spec `i`, titled so.
    Rename(usize, String),
    /// Copy was pressed on spec `i`, titled so.
    Copy(usize, String),
    /// New Tree was pressed.
    New,
    PromptEdited(String),
    PromptOk,
    PromptCancel,
    ImportUrlEdited(String),
    /// Import Tree was pressed.
    ImportTree,
    /// Export Tree URL was pressed.
    ExportTree,
    Done,
    Idle,
}

/// What the spec manager asks the scripts for.
pub enum ManageAction {
    Nothing,
    Activate(usize),
    Delete(usize),
    /// Run the prompt's action with the trimmed name.
    RunPrompt(SpecAction, String),
    /// Import the trimmed tree link as a new spec.
    Import(String),
    Export,
}

/// One frame of the spec manager, with `spec_count` specs of which
/// `active_spec` is active. Activate (offered on the other specs) and
/// Delete (offered while more than one spec is left) ask for their call;
/// New, Copy and Rename open the name prompt with its starting text; OK asks
/// to run the prompt with the trimmed name unless it is blank; Cancel drops
/// the prompt; Import asks to import the trimmed link unless it is blank;
/// Done closes the manager and forgets the prompt, the error and the link.
pub fn manage_specs_step(m: ManageSpecs, active_spec: usize, spec_count: usize, e: ManageEvent) -> (r: (
    ManageSpecs,
    ManageAction,
))
    ensures
        e matches ManageEvent::Activate(i) ==> r.0 == m && if i != active_spec {
            r.1 matches ManageAction::Activate(j) && j == i
        } else {
            r.1 is Nothing
        },
        e matches ManageEvent::Delete(i) ==> r.0 == m && if spec_count > 1 {
            r.1 matches ManageAction::Delete(j) && j == i
        } else {
            r.1 is Nothing
        },
        e matches ManageEvent::Rename(i, title) ==> r.1 is Nothing && r.0.open == m.open
            && r.0.import_url == m.import_url && r.0.import_error == m.import_error
            && r.0.export_url == m.export_url && (r.0.prompt matches Some(p) && p.0
            == SpecAction::Rename(i) && p.1@ == prompt_text_of(SpecAction::Rename(i), title@)),
        e matches ManageEvent::Copy(i, title) ==> r.1 is Nothing && r.0.open == m.open
            && r.0.import_url == m.import_url && r.0.import_error == m.import_error
            && r.0.export_url == m.export_url && (r.0.prompt matches Some(p) && p.0
            == SpecAction::Copy(i) && p.1@ == prompt_text_of(SpecAction::Copy(i), title@)),
        e is New ==> r.1 is Nothing && r.0.open == m.open && r.0.import_url == m.import_url
            && r.0.import_error == m.import_error && r.0.export_url == m.export_url && (
        r.0.prompt matches Some(p) && p.0 == SpecAction::New && p.1@ == prompt_text_of(
            SpecAction::New,
            seq![],
        )),
        e matches ManageEvent::PromptEdited(t) ==> r.1 is Nothing && r.0 == (ManageSpecs {
            prompt: match m.prompt {
                Some(p) => Some((p.0, t)),
                None => None,
            },
            ..m
        }),
        e is PromptOk ==> r.0 == m && match m.prompt {
            Some(p) => if trimmed(p.1@).len() > 0 {
                r.1 matches ManageAction::RunPrompt(a, n) && a == p.0 && n@ == trimmed(p.1@)
            } else {
                r.1 is Nothing
            },
            None => r.1 is Nothing,
        },
        e is PromptCancel ==> r.1 is Nothing && r.0 == (ManageSpecs { prompt: None, ..m }),
        e matches ManageEvent::ImportUrlEdited(t) ==> r.1 is Nothing && r.0 == (ManageSpecs {
            import_url: t,
            ..m
        }),
        e is ImportTree ==> r.0 == m && if trimmed(m.import_url@).len() > 0 {
            r.1 matches ManageAction::Import(u) && u@ == trimmed(m.import_url@)
        } else {
            r.1 is Nothing
        },
        e is ExportTree ==> r.0 == m && r.1 is Export,
        e is Done ==> r.1 is Nothing && r.0 == (ManageSpecs {
            open: false,
            prompt: None,
            import_error: None,
            export_url: None,
            ..m
        }),
        e is Idle ==> r.0 == m && r.1 is Nothing,
{
    match e {
        ManageEvent::Activate(i) => {
            if i != active_spec {
                (m, ManageAction::Activate(i))
            } else {
                (m, ManageAction::Nothing)
            }
        },
        ManageEvent::Delete(i) => {
            if spec_count > 1 {
                (m, ManageAction::Delete(i))
            } else {
                (m, ManageAction::Nothing)
            }
        },
        ManageEvent::Rename(i, title) => {
            let text = spec_prompt_text(SpecAction::Rename(i), title.as_str());
            (ManageSpecs { prompt: Some((SpecAction::Rename(i), text)), ..m }, ManageAction::Nothing)
        },
        ManageEvent::Copy(i, title) => {
            let text = spec_prompt_text(SpecAction::Copy(i), title.as_str());
            (ManageSpecs { prompt: Some((SpecAction::Copy(i), text)), ..m }, ManageAction::Nothing)
        },
        ManageEvent::New => {
            let text = spec_prompt_text(SpecAction::New, "");
            proof {
                assert(""@ =~= Seq::<char>::empty()) by {
                    reveal_strlit("");
                }
            }
            (ManageSpecs { prompt: Some((SpecAction::New, text)), ..m }, ManageAction::Nothing)
        },
        ManageEvent::PromptEdited(t) => {
            let prompt = match m.prompt {
                Some(p) => Some((p.0, t)),
                None => None,
            };
            (ManageSpecs { prompt, ..m }, ManageAction::Nothing)
        },
        ManageEvent::PromptOk => {
            let a = match &m.prompt {
                Some(p) => {
                    let name = trim(&chars_of(p.1.as_str()));
                    if name.len() > 0 {
                        ManageAction::RunPrompt(p.0, string_of(&name))
                    } else {
                        ManageAction::Nothing
                    }
                },
                None => ManageAction::Nothing,
            };
            (m, a)
        },
        ManageEvent::PromptCancel => (ManageSpecs { prompt: None, ..m }, ManageAction::Nothing),
        ManageEvent::ImportUrlEdited(t) => (
            ManageSpecs { import_url: t, ..m },
            ManageAction::Nothing,
        ),
        ManageEvent::ImportTree => {
            let u = trim(&chars_of(m.import_url.as_str()));
            if u.len() > 0 {
                (m, ManageAction::Import(string_of(&u)))
            } else {
                (m, ManageAction::Nothing)
            }
        },
        ManageEvent::ExportTree => (m, ManageAction::Export),
        ManageEvent::Done => (
            ManageSpecs { open: false, prompt: None, import_error: None, export_url: None, ..m },
            ManageAction::Nothing,
        ),
        ManageEvent::Idle => (m, ManageAction::Nothing),
    }
}

/// The spec manager after a prompt's action was answered: it goes away when
/// the action went through. The flag says whether the tree is rebuilt: after
/// a new or copied spec, not after a rename.
pub fn after_prompt_call(m: ManageSpecs, action: SpecAction, ok: bool) -> (r: (ManageSpecs, bool))
    ensures
        ok ==> r.0 == (ManageSpecs { prompt: None, ..m }) && r.1 == !(action is Rename),
        !ok ==> r.0 == m && !r.1,
{
    if ok {
        (ManageSpecs { prompt: None, ..m }, spec_action_rebuilds(action))
    } else {
        (m, false)
    }
}

/// The spec manager after a tree link import was answered with `error`
/// (`None` when it went through): success clears the link and the error,
/// failure shows the error.
pub fn after_import(m: ManageSpecs, error: Option<String>) -> (r: ManageSpecs)
    ensures
        error is None ==> r.import_url@.len() == 0 && r.import_error is None && r.open == m.open
            && r.prompt == m.prompt && r.export_url == m.export_url,
        error is Some ==> r == (ManageSpecs { import_error: error, ..m }),
{
    match error {
        None => ManageSpecs { import_url: String::new(), import_error: None, ..m },
        Some(e) => ManageSpecs { import_error: Some(e), ..m },
    }
}

/// What the conversion popup's buttons were.
pub enum ConvertEvent {
    Convert,
    CopyConvert,
    Cancel,
    Idle,
}

/// The conversion the popup asks for.
pub enum ConvertCall {
    Nothing,
    /// Convert every spec to the version.
    All(String),
    /// Convert the active spec to the version, replacing it or not, ignoring
    /// its subtype or not.
    One(String, bool, bool),
}

/// One frame of the conversion popup: Convert converts every spec or the
/// active one in place; Copy + Convert, offered for one spec, keeps the
/// original; any of them or Cancel closes the popup (the flag).
pub fn convert_popup_step(c: &ConvertRequest, e: ConvertEvent) -> (r: (bool, ConvertCall))
    ensures
        e is Convert ==> r.0 && if c.all {
            r.1 matches ConvertCall::All(v) && v == c.version
        } else {
            r.1 matches ConvertCall::One(v, replace, ignore) && v == c.version && replace && ignore
                == c.ignore_sub_type
        },
        e is CopyConvert ==> if c.all {
            !r.0 && r.1 is Nothing
        } else {
            r.0 && (r.1 matches ConvertCall::One(v, replace, ignore) && v == c.version && !replace
                && ignore == c.ignore_sub_type)
        },
        e is Cancel ==> r.0 && r.1 is Nothing,
        e is Idle ==> !r.0 && r.1 is Nothing,
{
    match e {
        ConvertEvent::Convert => {
            if c.all {
                (true, ConvertCall::All(c.version.clone()))
            } else {
                (true, ConvertCall::One(c.version.clone(), true, c.ignore_sub_type))
            }
        },
        ConvertEvent::CopyConvert => {
            if c.all {
                (false, ConvertCall::Nothing)
            } else {
                (true, ConvertCall::One(c.version.clone(), false, c.ignore_sub_type))
            }
        },
        ConvertEvent::Cancel => (true, ConvertCall::Nothing),
        ConvertEvent::Idle => (false, ConvertCall::Nothing),
    }
}

} // verus!
