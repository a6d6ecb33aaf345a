//! The build list's own decisions: when its search is run again, what an
//! empty list says, and which folders a build can be moved into.

use vstd::prelude::*;
use crate::text::{chars_of, same_chars, string_of, trim, trimmed};
use crate::build_dialogs::Popup;
use crate::paths::{go_up_path, up_path};

verus! {

/// The order of the build list.
#[derive(Clone, Copy, PartialEq, Eq, Structural, Debug)]
pub enum SortMode {
    Name,
    Modified,
}

/// What the list was last filtered for: the folder on screen, the trimmed
/// search text and the order.
pub struct FilterKey {
    pub sub_path: String,
    pub filter: String,
    pub sort: SortMode,
}

/// The filter key for the folder `sub_path`, the search text `filter` and
/// the order `sort`.
pub fn filter_key(sub_path: &str, filter: &str, sort: SortMode) -> (k: FilterKey)
    ensures
        k.sub_path@ == sub_path@,
        k.filter@ == trimmed(filter@),
        k.sort == sort,
{
    let mut p = String::new();
    p.push_str(sub_path);
    FilterKey { sub_path: p, filter: string_of(&trim(&chars_of(filter))), sort }
}

/// The list is filtered again only when what it was last filtered for
/// differs from `key` (or it never was).
pub fn needs_refilter(last: &Option<FilterKey>, key: &FilterKey) -> (r: bool)
    ensures
        r == match last {
            Some(l) => !(l.sub_path@ == key.sub_path@ && l.filter@ == key.filter@ && l.sort
                == key.sort),
            None => true,
        },
{
    match last {
        Some(l) => !(same_chars(&chars_of(l.sub_path.as_str()), &chars_of(key.sub_path.as_str()))
            && same_chars(&chars_of(l.filter.as_str()), &chars_of(key.filter.as_str())) && l.sort
            == key.sort),
        None => true,
    }
}

/// What an empty build list says.
pub enum EmptyListNote {
    /// No builds at all, and the directory that was looked in.
    NoBuilds(String),
    /// A search found nothing.
    NoMatches,
}

/// The note of an empty list: with no search text, that there are no builds
/// in the build directory followed by the folder's sub path; with search text,
/// that nothing matches.
pub fn empty_list_note(filter: &str, build_path: &str, sub_path: &str) -> (r: EmptyListNote)
    ensures
        trimmed(filter@).len() == 0 ==> (r matches EmptyListNote::NoBuilds(d) && d@ == build_path@
            + sub_path@),
        trimmed(filter@).len() > 0 ==> r is NoMatches,
{
    if trim(&chars_of(filter)).len() == 0 {
        let mut d = String::new();
        d.push_str(build_path);
        d.push_str(sub_path);
        EmptyListNote::NoBuilds(d)
    } else {
        EmptyListNote::NoMatches
    }
}

/// A folder row of the list: the folder's own name and the sub path of the
/// folder that holds it.
pub struct FolderRow {
    pub folder_name: String,
    pub sub_path: String,
}

/// The folders a build can be moved into: for each folder row in order, its
/// name and its own sub path (the holder's sub path, its name and `/`).
pub fn move_targets(folders: &Vec<FolderRow>) -> (r: Vec<(String, String)>)
    ensures
        r@.len() == folders@.len(),
        forall|k: int|
            0 <= k < r@.len() ==> (#[trigger] r@[k]).0@ == folders@[k].folder_name@ && r@[k].1@
                == folders@[k].sub_path@ + folders@[k].folder_name@ + seq!['/'],
{
    let mut r: Vec<(String, String)> = Vec::new();
    let mut k: usize = 0;
    while k < folders.len()
        invariant
            k <= folders@.len(),
            r@.len() == k,
            forall|j: int|
                0 <= j < k ==> (#[trigger] r@[j]).0@ == folders@[j].folder_name@ && r@[j].1@
                    == folders@[j].sub_path@ + folders@[j].folder_name@ + seq!['/'],
        decreases folders@.len() - k,
    {
        let f = &folders[k];
        let mut name = String::new();
        name.push_str(f.folder_name.as_str());
        let mut path = String::new();
        path.push_str(f.sub_path.as_str());
        path.push_str(f.folder_name.as_str());
        path.push('/');
        r.push((name, path));
        k = k + 1;
    }
    r
}

/// The build list's state: the folder on screen, the order, the search
/// text, what the entries were last filtered for, and the open dialog.
pub struct ListState {
    pub sub_path: String,
    pub sort: SortMode,
    pub filter: String,
    pub filtered_as: Option<FilterKey>,
    pub popup: Option<Popup>,
}

/// What the user did on the build list in a frame.
pub enum ListEvent {
    NewBuild,
    NewFolder,
    Up,
    Refresh,
    Sort(SortMode),
    FilterEdited(String),
    ClearFilter,
    /// Entry `i`, a build, was clicked.
    OpenBuild(usize),
    /// A folder was clicked: its holder's sub path and its name.
    EnterFolder(String, String),
    /// Delete on an entry: its path, its name and whether it is a folder.
    AskDelete(String, String, bool),
    /// Rename on an entry: its path, its name and whether it is a folder.
    AskRename(String, String, bool),
    /// Move to on a build: its path, file name, sub path and the target.
    Move(String, String, String, String),
    Idle,
}

/// What the build list asks for.
pub enum ListAction {
    Nothing,
    NewBuild,
    /// Index the builds under the folder on screen again.
    Reindex,
    /// A folder was entered (and is indexed).
    EnterFolder,
    /// Open build entry `i`.
    Open(usize),
    /// Move a build: path, file name, from and to sub paths.
    Move(String, String, String, String),
}

/// `l` with its filtered entries to be worked out again.
pub open spec fn unfiltered(l: ListState) -> ListState {
    ListState { filtered_as: None, ..l }
}

/// One frame of the build list. New Build asks for a new build; New Folder
/// opens the folder name dialog; Up (below the build root) and entering a
/// folder move the folder on screen and index it; Refresh indexes again; the
/// order and the search text are kept; the clear button empties the search;
/// clicking a build opens it; Delete and Rename open their dialogs; Move to
/// asks for the move.
pub fn list_step(l: ListState, e: ListEvent) -> (r: (ListState, ListAction))
    ensures
        e is NewBuild ==> r.0 == l && r.1 is NewBuild,
        e is NewFolder ==> r.1 is Nothing && (r.0.popup matches Some(Popup::NewFolder { name, error })
            && name@.len() == 0 && error is None) && r.0.sub_path == l.sub_path && r.0.sort == l.sort
            && r.0.filter == l.filter && r.0.filtered_as == l.filtered_as,
        e is Up ==> if l.sub_path@.len() > 0 {
            r.1 is Reindex && r.0.sub_path@ == up_path(l.sub_path@) && r.0.filtered_as is None
                && r.0.sort == l.sort && r.0.filter == l.filter && r.0.popup == l.popup
        } else {
            r.0 == l && r.1 is Nothing
        },
        e is Refresh ==> r.0 == unfiltered(l) && r.1 is Reindex,
        e matches ListEvent::Sort(m) ==> r.0 == (ListState { sort: m, ..l }) && r.1 is Nothing,
        e matches ListEvent::FilterEdited(t) ==> r.0 == (ListState { filter: t, ..l }) && r.1
            is Nothing,
        e is ClearFilter ==> r.1 is Nothing && r.0.filter@.len() == 0 && r.0.sub_path == l.sub_path
            && r.0.sort == l.sort && r.0.filtered_as == l.filtered_as && r.0.popup == l.popup,
        e matches ListEvent::OpenBuild(i) ==> r.0 == l && (r.1 matches ListAction::Open(j) && j
            == i),
        e matches ListEvent::EnterFolder(sp, name) ==> r.1 is EnterFolder && r.0.sub_path@ == sp@
            + name@ + seq!['/'] && r.0.filtered_as is None && r.0.sort == l.sort && r.0.filter
            == l.filter && r.0.popup == l.popup,
        e matches ListEvent::AskDelete(path, name, is_folder) ==> r.1 is Nothing && r.0 == (
        ListState { popup: Some(Popup::ConfirmDelete { path, name, is_folder }), ..l }),
        e matches ListEvent::AskRename(path, name, is_folder) ==> r.1 is Nothing && r.0 == (
        ListState { popup: Some(Popup::Rename { path, is_folder, name, error: None }), ..l }),
        e matches ListEvent::Move(path, file, from, to) ==> r.0 == l && (r.1 matches ListAction::Move(
            p2,
            f2,
            a2,
            b2,
        ) && p2 == path && f2 == file && a2 == from && b2 == to),
        e is Idle ==> r.0 == l && r.1 is Nothing,
{
    match e {
        ListEvent::NewBuild => (l, ListAction::NewBuild),
        ListEvent::NewFolder => (
            ListState { popup: Some(Popup::NewFolder { name: String::new(), error: None }), ..l },
            ListAction::Nothing,
        ),
        ListEvent::Up => {
            if chars_of(l.sub_path.as_str()).len() > 0 {
                let up = go_up_path(l.sub_path.as_str());
                (ListState { sub_path: up, filtered_as: None, ..l }, ListAction::Reindex)
            } else {
                (l, ListAction::Nothing)
            }
        },
        ListEvent::Refresh => (ListState { filtered_as: None, ..l }, ListAction::Reindex),
        ListEvent::Sort(m) => (ListState { sort: m, ..l }, ListAction::Nothing),
        ListEvent::FilterEdited(t) => (ListState { filter: t, ..l }, ListAction::Nothing),
        ListEvent::ClearFilter => (ListState { filter: String::new(), ..l }, ListAction::Nothing),
        ListEvent::OpenBuild(i) => (l, ListAction::Open(i)),
        ListEvent::EnterFolder(sp, name) => {
            let mut p = String::new();
            p.push_str(sp.as_str());
            p.push_str(name.as_str());
            p.push('/');
            (ListState { sub_path: p, filtered_as: None, ..l }, ListAction::EnterFolder)
        },
        ListEvent::AskDelete(path, name, is_folder) => (
            ListState { popup: Some(Popup::ConfirmDelete { path, name, is_folder }), ..l },
            ListAction::Nothing,
        ),
        ListEvent::AskRename(path, name, is_folder) => (
            ListState { popup: Some(Popup::Rename { path, is_folder, name, error: None }), ..l },
            ListAction::Nothing,
        ),
        ListEvent::Move(path, file, from, to) => (l, ListAction::Move(path, file, from, to)),
        ListEvent::Idle => (l, ListAction::Nothing),
    }
}

/// The list before it is drawn: when the folder, the trimmed search or the
/// order differ from what the entries were filtered for, the new key is
/// recorded and returned, for the entries to be filtered for it.
pub fn refilter_step(l: ListState) -> (r: (ListState, Option<FilterKey>))
    ensures
        needs_refilter_spec(l.filtered_as, l.sub_path@, trimmed(l.filter@), l.sort) ==> (
        r.0.filtered_as matches Some(k) && k.sub_path@ == l.sub_path@ && k.filter@ == trimmed(
            l.filter@,
        ) && k.sort == l.sort) && (r.1 matches Some(k) && k.sub_path@ == l.sub_path@ && k.filter@
            == trimmed(l.filter@) && k.sort == l.sort) && r.0.sub_path == l.sub_path && r.0.sort
            == l.sort && r.0.filter == l.filter && r.0.popup == l.popup,
        !needs_refilter_spec(l.filtered_as, l.sub_path@, trimmed(l.filter@), l.sort) ==> r.0 == l
            && r.1 is None,
{
    let key = filter_key(l.sub_path.as_str(), l.filter.as_str(), l.sort);
    if needs_refilter(&l.filtered_as, &key) {
        let again = filter_key(l.sub_path.as_str(), l.filter.as_str(), l.sort);
        (ListState { filtered_as: Some(key), ..l }, Some(again))
    } else {
        (l, None)
    }
}

/// Whether entries filtered for `last` must be filtered again for the folder
/// `sub_path`, the trimmed search `filter` and the order `sort`.
pub open spec fn needs_refilter_spec(
    last: Option<FilterKey>,
    sub_path: Seq<char>,
    filter: Seq<char>,
    sort: SortMode,
) -> bool {
    match last {
        Some(k) => !(k.sub_path@ == sub_path && k.filter@ == filter && k.sort == sort),
        None => true,
    }
}

/// The list after a move was answered: a move that went through asks for
/// the builds to be indexed again; a refused one shows its message.
pub fn after_move(l: ListState, outcome: Result<(), String>) -> (r: (ListState, bool))
    ensures
        outcome is Ok ==> r.0 == unfiltered(l) && r.1,
        outcome matches Err(m) ==> r.0 == (ListState { popup: Some(Popup::Error(m)), ..l }) && !r.1,
{
    match outcome {
        Ok(()) => (ListState { filtered_as: None, ..l }, true),
        Err(m) => (ListState { popup: Some(Popup::Error(m)), ..l }, false),
    }
}

/// Whether a build's menu offers Move to: when there is a parent folder or a
/// folder among the entries.
pub fn move_menu_shown(parent: &Option<String>, target_count: usize) -> (r: bool)
    ensures
        r == (parent is Some || target_count > 0),
{
    parent.is_some() || target_count > 0
}

} // verus!
