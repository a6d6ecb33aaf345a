//! The build list's dialogs: deleting, renaming and creating entries, and
//! the error message that a failed operation leaves.

use vstd::prelude::*;

verus! {

/// A dialog of the build list.
#[derive(Debug, PartialEq)]
pub enum Popup {
    /// Asks before deleting a build or a folder.
    ConfirmDelete { path: String, name: String, is_folder: bool },
    /// The new name for a build or a folder, and the last error.
    Rename { path: String, is_folder: bool, name: String, error: Option<String> },
    /// The name of a new folder, and the last error.
    NewFolder { name: String, error: Option<String> },
    /// A failed operation's message.
    Error(String),
}

/// The file operation that confirming a dialog asks for.
#[derive(Debug, PartialEq)]
pub enum PopupAction {
    DeleteFolder { path: String },
    DeleteBuild { path: String },
    RenameEntry { path: String, name: String, is_folder: bool },
    CreateFolder { name: String },
}

/// The operation that confirming `popup` performs: the deletion, the
/// rename or the new folder; none for an error message, which confirming
/// only closes.
pub open spec fn confirmed_action(popup: Popup) -> Option<PopupAction> {
    match popup {
        Popup::ConfirmDelete { path, name, is_folder } => if is_folder {
            Some(PopupAction::DeleteFolder { path })
        } else {
            Some(PopupAction::DeleteBuild { path })
        },
        Popup::Rename { path, is_folder, name, error } => Some(
            PopupAction::RenameEntry { path, name, is_folder },
        ),
        Popup::NewFolder { name, error } => Some(PopupAction::CreateFolder { name }),
        Popup::Error(message) => None,
    }
}

/// What confirming dialog `popup` asks to be done.
pub fn confirm_action(popup: &Popup) -> (r: Option<PopupAction>)
    ensures
        r == confirmed_action(*popup),
{
    match popup {
        Popup::ConfirmDelete { path, name, is_folder } => if *is_folder {
            Some(PopupAction::DeleteFolder { path: path.clone() })
        } else {
            Some(PopupAction::DeleteBuild { path: path.clone() })
        },
        Popup::Rename { path, is_folder, name, error } => Some(
            PopupAction::RenameEntry { path: path.clone(), name: name.clone(), is_folder: *is_folder },
        ),
        Popup::NewFolder { name, error } => Some(PopupAction::CreateFolder { name: name.clone() }),
        Popup::Error(message) => None,
    }
}

/// The dialog after its operation ended with `outcome`, and whether the list
/// is reread: success closes the dialog and rereads the list; a failed
/// deletion turns into the error message; a failed rename or new folder
/// keeps its dialog open with the error shown.
pub open spec fn after_outcome(popup: Popup, outcome: Result<(), String>) -> (Option<Popup>, bool) {
    match outcome {
        Ok(()) => (None, true),
        Err(e) => match popup {
            Popup::ConfirmDelete { .. } => (Some(Popup::Error(e)), false),
            Popup::Rename { path, is_folder, name, error } => (
                Some(Popup::Rename { path, is_folder, name, error: Some(e) }),
                false,
            ),
            Popup::NewFolder { name, error } => (Some(Popup::NewFolder { name, error: Some(e) }), false),
            Popup::Error(message) => (Some(Popup::Error(message)), false),
        },
    }
}

/// The dialog after its confirmed operation ended with `outcome`, and
/// whether the build list is reread.
pub fn after_operation(popup: Popup, outcome: Result<(), String>) -> (r: (Option<Popup>, bool))
    ensures
        r == after_outcome(popup, outcome),
{
    match outcome {
        Ok(()) => (None, true),
        Err(e) => match popup {
            Popup::ConfirmDelete { .. } => (Some(Popup::Error(e)), false),
            Popup::Rename { path, is_folder, name, error } => (
                Some(Popup::Rename { path, is_folder, name, error: Some(e) }),
                false,
            ),
            Popup::NewFolder { name, error } => (Some(Popup::NewFolder { name, error: Some(e) }), false),
            Popup::Error(message) => (Some(Popup::Error(message)), false),
        },
    }
}

} // verus!
