use pob_egui::build_dialogs::{after_operation, confirm_action, Popup, PopupAction};

fn s(x: &str) -> String {
    x.to_string()
}

#[test]
fn confirming_asks_for_the_operation() {
    let del = Popup::ConfirmDelete { path: s("/b/x.xml"), name: s("x"), is_folder: false };
    assert_eq!(confirm_action(&del), Some(PopupAction::DeleteBuild { path: s("/b/x.xml") }));
    let del_dir = Popup::ConfirmDelete { path: s("/b/d"), name: s("d"), is_folder: true };
    assert_eq!(confirm_action(&del_dir), Some(PopupAction::DeleteFolder { path: s("/b/d") }));
    let rename = Popup::Rename { path: s("/b/x.xml"), is_folder: false, name: s("y"), error: None };
    assert_eq!(
        confirm_action(&rename),
        Some(PopupAction::RenameEntry { path: s("/b/x.xml"), name: s("y"), is_folder: false })
    );
    let new_folder = Popup::NewFolder { name: s("League"), error: None };
    assert_eq!(confirm_action(&new_folder), Some(PopupAction::CreateFolder { name: s("League") }));
    assert_eq!(confirm_action(&Popup::Error(s("oops"))), None);
}

#[test]
fn success_closes_and_rereads() {
    let del = Popup::ConfirmDelete { path: s("p"), name: s("n"), is_folder: false };
    assert_eq!(after_operation(del, Ok(())), (None, true));
    let new_folder = Popup::NewFolder { name: s("A"), error: Some(s("old")) };
    assert_eq!(after_operation(new_folder, Ok(())), (None, true));
}

#[test]
fn failure_keeps_a_dialog_open() {
    let del = Popup::ConfirmDelete { path: s("p"), name: s("n"), is_folder: true };
    assert_eq!(after_operation(del, Err(s("denied"))), (Some(Popup::Error(s("denied"))), false));
    let rename = Popup::Rename { path: s("p"), is_folder: true, name: s("B"), error: None };
    assert_eq!(
        after_operation(rename, Err(s("exists"))),
        (Some(Popup::Rename { path: s("p"), is_folder: true, name: s("B"), error: Some(s("exists")) }), false)
    );
    let new_folder = Popup::NewFolder { name: s("A"), error: None };
    assert_eq!(
        after_operation(new_folder, Err(s("bad"))),
        (Some(Popup::NewFolder { name: s("A"), error: Some(s("bad")) }), false)
    );
}
