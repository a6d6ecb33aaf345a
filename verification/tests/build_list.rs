use pob_egui::build_dialogs::Popup;
use pob_egui::build_list::{
    after_move, empty_list_note, filter_key, list_step, move_menu_shown, move_targets,
    needs_refilter, refilter_step, EmptyListNote, FolderRow, ListAction, ListEvent, ListState,
    SortMode,
};

#[test]
fn filter_key_trims_the_search() {
    let k = filter_key("act1/", "  witch ", SortMode::Name);
    assert_eq!(k.sub_path, "act1/");
    assert_eq!(k.filter, "witch");
    assert_eq!(k.sort, SortMode::Name);
}

#[test]
fn list_is_filtered_again_only_when_the_key_changes() {
    let key = filter_key("", "witch", SortMode::Name);
    assert!(needs_refilter(&None, &key));
    assert!(!needs_refilter(&Some(filter_key("", " witch", SortMode::Name)), &key));
    assert!(needs_refilter(&Some(filter_key("", "witch", SortMode::Modified)), &key));
    assert!(needs_refilter(&Some(filter_key("a/", "witch", SortMode::Name)), &key));
    assert!(needs_refilter(&Some(filter_key("", "witc", SortMode::Name)), &key));
}

#[test]
fn empty_list_notes() {
    match empty_list_note("  ", "/home/u/Builds/", "league/") {
        EmptyListNote::NoBuilds(d) => assert_eq!(d, "/home/u/Builds/league/"),
        EmptyListNote::NoMatches => panic!("expected the build directory"),
    }
    assert!(matches!(empty_list_note("duelist", "/b/", ""), EmptyListNote::NoMatches));
}

#[test]
fn builds_move_into_each_folder_row() {
    let rows = vec![
        FolderRow { folder_name: "League".to_string(), sub_path: String::new() },
        FolderRow { folder_name: "Old".to_string(), sub_path: "League/".to_string() },
    ];
    assert_eq!(
        move_targets(&rows),
        vec![
            ("League".to_string(), "League/".to_string()),
            ("Old".to_string(), "League/Old/".to_string()),
        ]
    );
    assert!(move_targets(&Vec::new()).is_empty());
}

fn list(sub: &str) -> ListState {
    ListState {
        sub_path: sub.to_string(),
        sort: SortMode::Name,
        filter: " witch ".to_string(),
        filtered_as: None,
        popup: None,
    }
}

#[test]
fn list_navigation() {
    let (l, a) = list_step(list("a/b/"), ListEvent::Up);
    assert!(matches!(a, ListAction::Reindex));
    assert_eq!(l.sub_path, "a/");
    let (l, a) = list_step(list(""), ListEvent::Up);
    assert!(matches!(a, ListAction::Nothing));
    assert_eq!(l.sub_path, "");
    let (l, a) = list_step(list("a/"), ListEvent::EnterFolder("a/deep/".to_string(), "x".to_string()));
    assert!(matches!(a, ListAction::EnterFolder));
    assert_eq!(l.sub_path, "a/deep/x/");
    let (l, a) = list_step(list("a/"), ListEvent::OpenBuild(3));
    assert!(matches!(a, ListAction::Open(3)));
    let (l, _) = list_step(l, ListEvent::Sort(SortMode::Modified));
    assert_eq!(l.sort, SortMode::Modified);
    let (l, _) = list_step(l, ListEvent::ClearFilter);
    assert!(l.filter.is_empty());
    let (_, a) = list_step(list(""), ListEvent::NewBuild);
    assert!(matches!(a, ListAction::NewBuild));
}

#[test]
fn list_dialogs_and_moves() {
    let (l, _) = list_step(list(""), ListEvent::NewFolder);
    assert_eq!(l.popup, Some(Popup::NewFolder { name: String::new(), error: None }));
    let (l, _) = list_step(list(""), ListEvent::AskDelete("/b/x.xml".to_string(), "x".to_string(), false));
    assert_eq!(l.popup, Some(Popup::ConfirmDelete { path: "/b/x.xml".to_string(), name: "x".to_string(), is_folder: false }));
    let (l, _) = list_step(list(""), ListEvent::AskRename("/b/f".to_string(), "f".to_string(), true));
    assert_eq!(l.popup, Some(Popup::Rename { path: "/b/f".to_string(), is_folder: true, name: "f".to_string(), error: None }));
    let (l, a) = list_step(list(""), ListEvent::Move("/b/x.xml".to_string(), "x.xml".to_string(), "".to_string(), "f/".to_string()));
    assert!(matches!(a, ListAction::Move(ref p, ref f, ref from, ref to) if p == "/b/x.xml" && f == "x.xml" && from.is_empty() && to == "f/"));
    let (l, again) = after_move(l, Err("That build is already in this folder.".to_string()));
    assert!(!again);
    assert_eq!(l.popup, Some(Popup::Error("That build is already in this folder.".to_string())));
    let (_, again) = after_move(list(""), Ok(()));
    assert!(again);
    assert!(move_menu_shown(&Some(String::new()), 0));
    assert!(move_menu_shown(&None, 2));
    assert!(!move_menu_shown(&None, 0));
}

#[test]
fn list_filters_again_only_for_a_new_key() {
    let (l, key) = refilter_step(list("a/"));
    let key = key.unwrap();
    assert_eq!((key.sub_path.as_str(), key.filter.as_str(), key.sort), ("a/", "witch", SortMode::Name));
    let (l, key) = refilter_step(l);
    assert!(key.is_none());
    let (l, _) = list_step(l, ListEvent::FilterEdited("witch  ".to_string()));
    let (l, key) = refilter_step(l);
    assert!(key.is_none());
    let (l, _) = list_step(l, ListEvent::Refresh);
    let (_, key) = refilter_step(l);
    assert!(key.is_some());
}
