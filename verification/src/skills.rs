//! The skills panel's decisions: which actions a socket group's controls ask
//! for, and whether a frame's actions changed the build.

use vstd::prelude::*;
use crate::text::{chars_of, same_chars, string_of, trim, trimmed};

verus! {

/// A property of a gem that its row sets.
#[derive(Clone, Copy, PartialEq, Eq, Structural, Debug)]
pub enum GemProperty {
    Enabled(bool),
    Level(i64),
    Quality(i64),
    Count(i64),
    EnableGlobal1(bool),
    EnableGlobal2(bool),
}

/// A change that the skills panel asks the build scripts to make; groups and
/// gems are numbered from 1.
#[derive(Debug)]
pub enum SkillAction {
    SetMain(usize),
    NewGroup,
    DeleteGroup(usize),
    DeleteAllGroups,
    SetEnabled(usize, bool),
    SetLabel(usize, String),
    SetSlot(usize, Option<String>),
    SetImbuedSupport(usize, Option<String>),
    SetFullDps(usize, bool),
    SetGroupCount(usize, i64),
    SetGem(usize, usize, GemProperty),
    AddGem(usize, String),
    RemoveGem(usize, usize),
    MoveGroup(usize, usize),
    MoveGem(usize, usize, usize),
    CopyGroup(usize),
    PasteGroup(String),
    Refresh,
    ActivateSet(i64),
    NewSet(String),
    CopySet(i64, String),
    RenameSet(i64, String),
    DeleteSet(i64),
}

/// How the scripts answered an action.
#[derive(Clone, Copy, PartialEq, Eq, Structural, Debug)]
pub enum SkillReply {
    /// The call failed.
    Failed,
    /// The call succeeded.
    Done,
    /// The call succeeded with a message: an unknown gem for an added gem,
    /// a warning for an imbued support.
    DoneWithMessage,
    /// The clipboard held no socket group to paste.
    NothingToPaste,
}

/// Whether action `action`, answered with `reply`, changed the build: copying
/// never does; adding a gem does unless the gem was refused; a paste does
/// when there was a group to paste; an imbued support does even with a
/// warning; any other action does when its call succeeded.
pub open spec fn action_changes(action: SkillAction, reply: SkillReply) -> bool {
    match action {
        SkillAction::CopyGroup(_) => false,
        SkillAction::SetImbuedSupport(_, _) => reply is Done || reply is DoneWithMessage,
        _ => reply is Done,
    }
}

/// Whether action `action`, answered with `reply`, changed the build.
pub fn action_changed(action: &SkillAction, reply: SkillReply) -> (r: bool)
    ensures
        r == action_changes(*action, reply),
{
    match action {
        SkillAction::CopyGroup(_) => false,
        SkillAction::SetImbuedSupport(_, _) => match reply {
            SkillReply::Done | SkillReply::DoneWithMessage => true,
            _ => false,
        },
        _ => match reply {
            SkillReply::Done => true,
            _ => false,
        },
    }
}

/// Whether a frame's actions, answered with `replies` one for one, changed
/// the build: whether any of them did.
pub fn apply_outcome(actions: &Vec<SkillAction>, replies: &Vec<SkillReply>) -> (r: bool)
    requires
        actions@.len() == replies@.len(),
    ensures
        r == exists|k: int| 0 <= k < actions@.len() && action_changes(actions@[k], #[trigger] replies@[k]),
{
    let mut k: usize = 0;
    while k < actions.len()
        invariant
            k <= actions@.len() == replies@.len(),
            forall|j: int| 0 <= j < k ==> !action_changes(actions@[j], #[trigger] replies@[j]),
        decreases actions@.len() - k,
    {
        if action_changed(&actions[k], replies[k]) {
            return true;
        }
        k = k + 1;
    }
    false
}

/// A socket group as its header shows it.
pub struct GroupHeader {
    pub index: usize,
    pub label: String,
    pub is_main: bool,
    pub enabled: bool,
    pub from_item: bool,
    pub has_gems: bool,
}

/// What the user did with a socket group's header in a frame.
pub struct HeaderInput {
    /// The new state of the Enabled box, when it was clicked.
    pub enabled_clicked: Option<bool>,
    pub set_main_clicked: bool,
    /// The label field lost focus holding this text.
    pub label_committed: Option<String>,
    pub copy_clicked: bool,
    pub delete_clicked: bool,
    /// The new state of the Full DPS box, when it was clicked.
    pub full_dps_clicked: Option<bool>,
    /// The committed count of an item's group.
    pub count_committed: Option<i64>,
}

/// `a` as a one-element list when `present`, else empty.
pub open spec fn maybe(present: bool, a: SkillAction) -> Seq<SkillAction> {
    if present {
        seq![a]
    } else {
        seq![]
    }
}

/// The actions a header asks for, in order: the Enabled box; Set Main, shown
/// for an enabled group that is not the main one; a label changed from the
/// group's own; Copy; Delete, shown unless the group comes from an item,
/// straight away for a group without gems; Full DPS; the count, shown for an
/// item's group.
pub open spec fn header_actions_of(h: GroupHeader, i: HeaderInput) -> Seq<SkillAction> {
    maybe(i.enabled_clicked is Some, SkillAction::SetEnabled(h.index, i.enabled_clicked->Some_0))
        + maybe(
        i.set_main_clicked && !h.is_main && h.enabled,
        SkillAction::SetMain(h.index),
    ) + maybe(
        i.label_committed is Some && i.label_committed->Some_0@ != h.label@,
        SkillAction::SetLabel(h.index, i.label_committed->Some_0),
    ) + maybe(i.copy_clicked, SkillAction::CopyGroup(h.index)) + maybe(
        i.delete_clicked && !h.from_item && !h.has_gems,
        SkillAction::DeleteGroup(h.index),
    ) + maybe(i.full_dps_clicked is Some, SkillAction::SetFullDps(h.index, i.full_dps_clicked->Some_0))
        + maybe(
        i.count_committed is Some && h.from_item,
        SkillAction::SetGroupCount(h.index, i.count_committed->Some_0),
    )
}

/// The group whose deletion waits for confirmation: a group with gems whose
/// Delete was clicked.
pub open spec fn pending_delete_of(h: GroupHeader, i: HeaderInput) -> Option<usize> {
    if i.delete_clicked && !h.from_item && h.has_gems {
        Some(h.index)
    } else {
        None
    }
}

fn push_if(v: &mut Vec<SkillAction>, present: bool, a: SkillAction)
    ensures
        final(v)@ == old(v)@ + maybe(present, a),
{
    if present {
        v.push(a);
        assert(final(v)@ =~= old(v)@ + seq![a]);
    } else {
        assert(v@ =~= old(v)@ + Seq::<SkillAction>::empty());
    }
}

/// The actions a socket group's header asks for in a frame, and the group
/// whose deletion now waits for confirmation.
pub fn header_actions(h: GroupHeader, i: HeaderInput) -> (r: (Vec<SkillAction>, Option<usize>))
    ensures
        r.0@ == header_actions_of(h, i),
        r.1 == pending_delete_of(h, i),
{
    let ghost spec_h = h;
    let ghost spec_i = i;
    let mut v: Vec<SkillAction> = Vec::new();
    let enabled = match i.enabled_clicked {
        Some(e) => e,
        None => false,
    };
    push_if(&mut v, i.enabled_clicked.is_some(), SkillAction::SetEnabled(h.index, enabled));
    push_if(&mut v, i.set_main_clicked && !h.is_main && h.enabled, SkillAction::SetMain(h.index));
    let label_change = match &i.label_committed {
        Some(t) => !same_chars(&chars_of(t.as_str()), &chars_of(h.label.as_str())),
        None => false,
    };
    let label = match i.label_committed {
        Some(t) => t,
        None => String::new(),
    };
    push_if(&mut v, label_change, SkillAction::SetLabel(h.index, label));
    push_if(&mut v, i.copy_clicked, SkillAction::CopyGroup(h.index));
    push_if(
        &mut v,
        i.delete_clicked && !h.from_item && !h.has_gems,
        SkillAction::DeleteGroup(h.index),
    );
    let full = match i.full_dps_clicked {
        Some(f) => f,
        None => false,
    };
    push_if(&mut v, i.full_dps_clicked.is_some(), SkillAction::SetFullDps(h.index, full));
    let count = match i.count_committed {
        Some(c) => c,
        None => 0,
    };
    push_if(
        &mut v,
        i.count_committed.is_some() && h.from_item,
        SkillAction::SetGroupCount(h.index, count),
    );
    let pending = if i.delete_clicked && !h.from_item && h.has_gems {
        Some(h.index)
    } else {
        None
    };
    assert(v@ =~= header_actions_of(spec_h, spec_i));
    (v, pending)
}

/// The move a gem dragged within group `group` from position `from` and
/// dropped on position `to` asks for: none for a gem of another group or a
/// drop on itself.
pub fn gem_drop_action(group: usize, payload_group: usize, from: usize, to: usize) -> (r: Option<
    SkillAction,
>)
    ensures
        r == if payload_group == group && from != to {
            Some(SkillAction::MoveGem(group, from, to))
        } else {
            None
        },
{
    if payload_group == group && from != to {
        Some(SkillAction::MoveGem(group, from, to))
    } else {
        None
    }
}

/// The gem a group's add field asks to add when its button is pressed or
/// Enter submitted: the trimmed text, unless that is empty.
pub fn add_gem_action(group: usize, add_text: &str, pressed: bool) -> (r: Option<SkillAction>)
    ensures
        pressed && trimmed(add_text@).len() > 0 ==> (r matches Some(SkillAction::AddGem(g, name))
            && g == group && name@ == trimmed(add_text@)),
        !(pressed && trimmed(add_text@).len() > 0) ==> r is None,
{
    if !pressed {
        return None;
    }
    let t = trim(&chars_of(add_text));
    if t.len() == 0 {
        None
    } else {
        Some(SkillAction::AddGem(group, string_of(&t)))
    }
}

/// What the user did with a gem's row in a frame.
pub struct GemRowInput {
    /// The new state of the gem's Enabled box, when it was clicked.
    pub enabled_clicked: Option<bool>,
    /// A committed level, quality or count edit.
    pub level_committed: Option<i64>,
    pub quality_committed: Option<i64>,
    pub count_committed: Option<i64>,
    /// Whether the gem shows a count and its two global effect boxes.
    pub has_count: bool,
    pub has_global1: bool,
    pub has_global2: bool,
    /// The new state of a global effect box, when it was clicked.
    pub global1_clicked: Option<bool>,
    pub global2_clicked: Option<bool>,
    pub remove_clicked: bool,
}

/// The actions a gem row asks for, in order: enabled, level, quality, the
/// count where the gem has one, the global effects it shows, and removal.
pub open spec fn gem_row_actions_of(group: usize, gem: usize, i: GemRowInput) -> Seq<SkillAction> {
    maybe(
        i.enabled_clicked is Some,
        SkillAction::SetGem(group, gem, GemProperty::Enabled(i.enabled_clicked->Some_0)),
    ) + maybe(
        i.level_committed is Some,
        SkillAction::SetGem(group, gem, GemProperty::Level(i.level_committed->Some_0)),
    ) + maybe(
        i.quality_committed is Some,
        SkillAction::SetGem(group, gem, GemProperty::Quality(i.quality_committed->Some_0)),
    ) + maybe(
        i.has_count && i.count_committed is Some,
        SkillAction::SetGem(group, gem, GemProperty::Count(i.count_committed->Some_0)),
    ) + maybe(
        i.has_global1 && i.global1_clicked is Some,
        SkillAction::SetGem(group, gem, GemProperty::EnableGlobal1(i.global1_clicked->Some_0)),
    ) + maybe(
        i.has_global2 && i.global2_clicked is Some,
        SkillAction::SetGem(group, gem, GemProperty::EnableGlobal2(i.global2_clicked->Some_0)),
    ) + maybe(i.remove_clicked, SkillAction::RemoveGem(group, gem))
}

/// The actions gem `gem` of group `group` asks for in a frame.
pub fn gem_row_actions(group: usize, gem: usize, i: GemRowInput) -> (r: Vec<SkillAction>)
    ensures
        r@ == gem_row_actions_of(group, gem, i),
{
    let ghost spec_i = i;
    let mut v: Vec<SkillAction> = Vec::new();
    let e = match i.enabled_clicked {
        Some(b) => b,
        None => false,
    };
    push_if(&mut v, i.enabled_clicked.is_some(), SkillAction::SetGem(group, gem, GemProperty::Enabled(e)));
    let l = match i.level_committed {
        Some(x) => x,
        None => 0,
    };
    push_if(&mut v, i.level_committed.is_some(), SkillAction::SetGem(group, gem, GemProperty::Level(l)));
    let q = match i.quality_committed {
        Some(x) => x,
        None => 0,
    };
    push_if(
        &mut v,
        i.quality_committed.is_some(),
        SkillAction::SetGem(group, gem, GemProperty::Quality(q)),
    );
    let c = match i.count_committed {
        Some(x) => x,
        None => 0,
    };
    push_if(
        &mut v,
        i.has_count && i.count_committed.is_some(),
        SkillAction::SetGem(group, gem, GemProperty::Count(c)),
    );
    let g1 = match i.global1_clicked {
        Some(b) => b,
        None => false,
    };
    push_if(
        &mut v,
        i.has_global1 && i.global1_clicked.is_some(),
        SkillAction::SetGem(group, gem, GemProperty::EnableGlobal1(g1)),
    );
    let g2 = match i.global2_clicked {
        Some(b) => b,
        None => false,
    };
    push_if(
        &mut v,
        i.has_global2 && i.global2_clicked.is_some(),
        SkillAction::SetGem(group, gem, GemProperty::EnableGlobal2(g2)),
    );
    push_if(&mut v, i.remove_clicked, SkillAction::RemoveGem(group, gem));
    assert(v@ =~= gem_row_actions_of(group, gem, spec_i));
    v
}

/// The socket a group's slot list asks for when entry `picked_label`
/// (socketing into `picked_slot`) is picked while `current_label` is shown:
/// none for an item's group, whose list is disabled, or for the entry
/// already shown.
pub fn slot_action(
    group: usize,
    from_item: bool,
    current_label: &str,
    picked_label: &str,
    picked_slot: Option<String>,
) -> (r: Option<SkillAction>)
    ensures
        !from_item && picked_label@ != current_label@ ==> (r matches Some(
            SkillAction::SetSlot(g, s),
        ) && g == group && s == picked_slot),
        !(!from_item && picked_label@ != current_label@) ==> r is None,
{
    if !from_item && !same_chars(&chars_of(picked_label), &chars_of(current_label)) {
        Some(SkillAction::SetSlot(group, picked_slot))
    } else {
        None
    }
}

/// How a group's imbued support shows: not at all (no socket, or an item's
/// group), as the current one with a remove button, or as a list of choices,
/// disabled when another group of the same slot holds the slot's imbued
/// support.
#[derive(Clone, Copy, PartialEq, Eq, Structural, Debug)]
pub enum ImbuedShown {
    Hidden,
    Current,
    Choices(bool),
}

/// The imbued support control of group `group`: `owner` is the group that
/// holds an imbued support in the same slot, if any.
pub fn imbued_shown(group: usize, has_slot: bool, from_item: bool, has_imbued: bool, owner: Option<usize>) -> (r: ImbuedShown)
    ensures
        r == if !has_slot || from_item {
            ImbuedShown::Hidden
        } else if has_imbued {
            ImbuedShown::Current
        } else {
            ImbuedShown::Choices(!(owner matches Some(o) && o != group))
        },
{
    if !has_slot || from_item {
        ImbuedShown::Hidden
    } else if has_imbued {
        ImbuedShown::Current
    } else {
        let taken = match owner {
            Some(o) => o != group,
            None => false,
        };
        ImbuedShown::Choices(!taken)
    }
}

/// The imbued support change a frame asks for: removing the current one, or
/// picking one from enabled choices.
pub fn imbued_action(group: usize, shown: ImbuedShown, remove_clicked: bool, picked: Option<String>) -> (r: Option<SkillAction>)
    ensures
        shown is Current && remove_clicked ==> (r matches Some(SkillAction::SetImbuedSupport(g, n))
            && g == group && n is None),
        shown == ImbuedShown::Choices(true) && picked is Some ==> (r matches Some(
            SkillAction::SetImbuedSupport(g, n),
        ) && g == group && n == picked),
        !(shown is Current && remove_clicked) && !(shown == ImbuedShown::Choices(true)
            && picked is Some) ==> r is None,
{
    match shown {
        ImbuedShown::Current => if remove_clicked {
            Some(SkillAction::SetImbuedSupport(group, None))
        } else {
            None
        },
        ImbuedShown::Choices(true) => match picked {
            Some(n) => Some(SkillAction::SetImbuedSupport(group, Some(n))),
            None => None,
        },
        _ => None,
    }
}

/// A socket group dragged from position `from` and dropped on group `to`
/// moves there; a drop on itself does nothing.
pub fn group_drop_action(from: usize, to: usize) -> (r: Option<SkillAction>)
    ensures
        from != to ==> (r matches Some(SkillAction::MoveGroup(a, b)) && a == from && b == to),
        from == to ==> r is None,
{
    if from != to {
        Some(SkillAction::MoveGroup(from, to))
    } else {
        None
    }
}

/// The confirmation of deleting group `pending` with gems: Delete asks for
/// the deletion, and Delete or Cancel (or dismissing) closes it.
pub fn confirm_delete_step(pending: Option<usize>, delete: bool, close: bool) -> (r: (
    Option<usize>,
    Option<SkillAction>,
))
    ensures
        pending matches Some(g) ==> if delete {
            r.0 is None && (r.1 matches Some(SkillAction::DeleteGroup(d)) && d == g)
        } else if close {
            r.0 is None && r.1 is None
        } else {
            r.0 == pending && r.1 is None
        },
        pending is None ==> r.0 is None && r.1 is None,
{
    match pending {
        Some(g) => if delete {
            (None, Some(SkillAction::DeleteGroup(g)))
        } else if close {
            (None, None)
        } else {
            (pending, None)
        },
        None => (None, None),
    }
}

/// What the user did on the skills panel outside the groups in a frame.
pub struct PanelInput {
    /// An undo or redo went through.
    pub undo_redo_done: bool,
    /// Ctrl+C was pressed.
    pub copy_key: bool,
    /// Ctrl+V brought this clipboard text.
    pub paste_key: Option<String>,
    /// A skill set was picked in the set list.
    pub set_picked: Option<i64>,
    pub new_group: bool,
    /// The Paste button brought this clipboard text.
    pub paste_button: Option<String>,
    pub delete_all_clicked: bool,
    /// The delete-all confirmation's Delete All and Cancel.
    pub delete_all_confirmed: bool,
    pub delete_all_cancelled: bool,
}

/// The panel's own actions, in order: a refresh after undo or redo; copying
/// the main group (`main`); pasting from the key; activating another set;
/// a new group; pasting from the button; deleting all groups once confirmed.
pub open spec fn panel_actions_of(i: PanelInput, main: Option<usize>, active_set: i64, confirm_all: bool) -> Seq<SkillAction> {
    maybe(i.undo_redo_done, SkillAction::Refresh) + maybe(
        i.copy_key && main is Some,
        SkillAction::CopyGroup(main->Some_0),
    ) + maybe(i.paste_key is Some, SkillAction::PasteGroup(i.paste_key->Some_0)) + maybe(
        i.set_picked matches Some(s) && s != active_set,
        SkillAction::ActivateSet(i.set_picked->Some_0),
    ) + maybe(i.new_group, SkillAction::NewGroup) + maybe(
        i.paste_button is Some,
        SkillAction::PasteGroup(i.paste_button->Some_0),
    ) + maybe(confirm_all && i.delete_all_confirmed, SkillAction::DeleteAllGroups)
}

/// The skills panel's own actions in a frame, with `main` the main group,
/// `active_set` the active skill set and `confirm_all` whether the delete-all
/// confirmation is open; also whether it is open afterwards. Delete All is
/// offered while some group is not an item's (`has_own_groups`).
pub fn panel_actions(i: PanelInput, main: Option<usize>, active_set: i64, has_own_groups: bool, confirm_all: bool) -> (r: (Vec<SkillAction>, bool))
    ensures
        r.0@ == panel_actions_of(i, main, active_set, confirm_all),
        r.1 == if confirm_all && (i.delete_all_confirmed || i.delete_all_cancelled) {
            false
        } else {
            confirm_all || (i.delete_all_clicked && has_own_groups)
        },
{
    let ghost spec_i = i;
    let mut v: Vec<SkillAction> = Vec::new();
    push_if(&mut v, i.undo_redo_done, SkillAction::Refresh);
    let m = match main {
        Some(g) => g,
        None => 0,
    };
    push_if(&mut v, i.copy_key && main.is_some(), SkillAction::CopyGroup(m));
    let pk_some = i.paste_key.is_some();
    let pk = match i.paste_key {
        Some(t) => t,
        None => String::new(),
    };
    push_if(&mut v, pk_some, SkillAction::PasteGroup(pk));
    let (picked_other, sp) = match i.set_picked {
        Some(s) => (s != active_set, s),
        None => (false, 0),
    };
    push_if(&mut v, picked_other, SkillAction::ActivateSet(sp));
    push_if(&mut v, i.new_group, SkillAction::NewGroup);
    let pb_some = i.paste_button.is_some();
    let pb = match i.paste_button {
        Some(t) => t,
        None => String::new(),
    };
    push_if(&mut v, pb_some, SkillAction::PasteGroup(pb));
    push_if(&mut v, confirm_all && i.delete_all_confirmed, SkillAction::DeleteAllGroups);
    assert(v@ =~= panel_actions_of(spec_i, main, active_set, confirm_all));
    let open = if confirm_all && (i.delete_all_confirmed || i.delete_all_cancelled) {
        false
    } else {
        confirm_all || (i.delete_all_clicked && has_own_groups)
    };
    (v, open)
}

/// A group's add-gem field after the scripts answered an added gem: a gem
/// that went in clears the field and its error; a refused name keeps the
/// text and shows the scripts' message; anything else leaves it.
pub fn add_field_after(text: String, error: Option<String>, reply: SkillReply, message: String) -> (r: (
    String,
    Option<String>,
))
    ensures
        reply is Done ==> r.0@.len() == 0 && r.1 is None,
        reply is DoneWithMessage ==> r.0 == text && r.1 == Some(message),
        reply is Failed || reply is NothingToPaste ==> r.0 == text && r.1 == error,
{
    match reply {
        SkillReply::Done => (String::new(), None),
        SkillReply::DoneWithMessage => (text, Some(message)),
        _ => (text, error),
    }
}

/// What the skill set name prompt is for.
#[derive(Clone, Copy, PartialEq, Eq, Structural, Debug)]
pub enum SetPromptFor {
    New,
    Copy(i64),
    Rename(i64),
}

/// The skill set manager: whether it is open, the name prompt, and the set
/// whose deletion waits for confirmation.
pub struct SetManager {
    pub open: bool,
    pub prompt: Option<(SetPromptFor, String)>,
    pub confirm_delete: Option<i64>,
}

/// What the user did in the skill set manager in a frame.
pub enum SetEvent {
    Activate(i64),
    Delete(i64),
    /// Rename on a set, with its title.
    Rename(i64, String),
    /// Copy on a set, with its shown name.
    Copy(i64, String),
    New,
    PromptEdited(String),
    PromptOk,
    PromptCancel,
    Close,
    ConfirmDelete,
    CancelDelete,
    Idle,
}

/// One frame of the skill set manager, with `active_set` active among
/// `set_count` sets. Activate (on other sets) asks to activate; Delete (while
/// more than one set is left) waits for confirmation, and confirming asks
/// for the deletion; Rename, Copy and New open the name prompt with the
/// title, the shown name with ` (copy)`, or nothing; OK asks for the
/// prompt's action with the trimmed name, unless it is blank, and drops the
/// prompt; Close (offered with no prompt open) closes the manager.
pub fn set_manager_step(m: SetManager, active_set: i64, set_count: usize, e: SetEvent) -> (r: (
    SetManager,
    Option<SkillAction>,
))
    ensures
        e matches SetEvent::Activate(id) ==> r.0 == m && if id != active_set {
            r.1 matches Some(SkillAction::ActivateSet(a)) && a == id
        } else {
            r.1 is None
        },
        e matches SetEvent::Delete(id) ==> r.1 is None && if set_count > 1 {
            r.0 == (SetManager { confirm_delete: Some(id), ..m })
        } else {
            r.0 == m
        },
        e matches SetEvent::Rename(id, title) ==> r.1 is None && r.0 == (SetManager {
            prompt: Some((SetPromptFor::Rename(id), title)),
            ..m
        }),
        e matches SetEvent::Copy(id, shown) ==> r.1 is None && r.0.open == m.open
            && r.0.confirm_delete == m.confirm_delete && (r.0.prompt matches Some(p) && p.0
            == SetPromptFor::Copy(id) && p.1@ == shown@ + " (copy)"@),
        e is New ==> r.1 is None && r.0.open == m.open && r.0.confirm_delete == m.confirm_delete
            && (r.0.prompt matches Some(p) && p.0 == SetPromptFor::New && p.1@.len() == 0),
        e matches SetEvent::PromptEdited(t) ==> r.1 is None && r.0 == (SetManager {
            prompt: match m.prompt {
                Some(p) => Some((p.0, t)),
                None => None,
            },
            ..m
        }),
        e is PromptOk ==> match m.prompt {
            Some(p) => if trimmed(p.1@).len() > 0 {
                r.0 == (SetManager { prompt: None, ..m }) && match p.0 {
                    SetPromptFor::New => r.1 matches Some(SkillAction::NewSet(n)) && n@ == trimmed(
                        p.1@,
                    ),
                    SetPromptFor::Copy(id) => r.1 matches Some(SkillAction::CopySet(i, n)) && i == id
                        && n@ == trimmed(p.1@),
                    SetPromptFor::Rename(id) => r.1 matches Some(SkillAction::RenameSet(i, n)) && i
                        == id && n@ == trimmed(p.1@),
                }
            } else {
                r.0 == m && r.1 is None
            },
            None => r.0 == m && r.1 is None,
        },
        e is PromptCancel ==> r.1 is None && r.0 == (SetManager { prompt: None, ..m }),
        e is Close ==> r.1 is None && if m.prompt is None {
            r.0 == (SetManager { open: false, ..m })
        } else {
            r.0 == m
        },
        e is ConfirmDelete ==> r.0 == (SetManager { confirm_delete: None, ..m }) && match m.confirm_delete {
            Some(id) => r.1 matches Some(SkillAction::DeleteSet(d)) && d == id,
            None => r.1 is None,
        },
        e is CancelDelete ==> r.1 is None && r.0 == (SetManager { confirm_delete: None, ..m }),
        e is Idle ==> r.0 == m && r.1 is None,
{
    match e {
        SetEvent::Activate(id) => if id != active_set {
            (m, Some(SkillAction::ActivateSet(id)))
        } else {
            (m, None)
        },
        SetEvent::Delete(id) => if set_count > 1 {
            (SetManager { confirm_delete: Some(id), ..m }, None)
        } else {
            (m, None)
        },
        SetEvent::Rename(id, title) => (
            SetManager { prompt: Some((SetPromptFor::Rename(id), title)), ..m },
            None,
        ),
        SetEvent::Copy(id, shown) => {
            let mut t = String::new();
            t.push_str(shown.as_str());
            t.push_str(" (copy)");
            (SetManager { prompt: Some((SetPromptFor::Copy(id), t)), ..m }, None)
        },
        SetEvent::New => (SetManager { prompt: Some((SetPromptFor::New, String::new())), ..m }, None),
        SetEvent::PromptEdited(t) => {
            let prompt = match m.prompt {
                Some(p) => Some((p.0, t)),
                None => None,
            };
            (SetManager { prompt, ..m }, None)
        },
        SetEvent::PromptOk => {
            let (keep, a) = match &m.prompt {
                Some(p) => {
                    let name = trim(&chars_of(p.1.as_str()));
                    if name.len() > 0 {
                        let n = string_of(&name);
                        let a = match p.0 {
                            SetPromptFor::New => SkillAction::NewSet(n),
                            SetPromptFor::Copy(id) => SkillAction::CopySet(id, n),
                            SetPromptFor::Rename(id) => SkillAction::RenameSet(id, n),
                        };
                        (false, Some(a))
                    } else {
                        (true, None)
                    }
                },
                None => (true, None),
            };
            if keep {
                (m, a)
            } else {
                (SetManager { prompt: None, ..m }, a)
            }
        },
        SetEvent::PromptCancel => (SetManager { prompt: None, ..m }, None),
        SetEvent::Close => if m.prompt.is_none() {
            (SetManager { open: false, ..m }, None)
        } else {
            (m, None)
        },
        SetEvent::ConfirmDelete => {
            let a = match m.confirm_delete {
                Some(id) => Some(SkillAction::DeleteSet(id)),
                None => None,
            };
            (SetManager { confirm_delete: None, ..m }, a)
        },
        SetEvent::CancelDelete => (SetManager { confirm_delete: None, ..m }, None),
        SetEvent::Idle => (m, None),
    }
}

} // verus!
