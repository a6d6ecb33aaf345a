use pob_egui::paths::{
    enter_folder_path, folder_search_dir, go_up_path, module_file_path, parent_of, relative_prefix,
    user_dir_path,
};

#[test]
fn parent_of_folders() {
    assert_eq!(parent_of(""), None);
    assert_eq!(parent_of("///"), None);
    assert_eq!(parent_of("a/"), Some(String::new()));
    assert_eq!(parent_of("a/b/"), Some("a/".to_string()));
    assert_eq!(parent_of("a/b"), Some("a/".to_string()));
    assert_eq!(parent_of("a//"), Some(String::new()));
    assert_eq!(parent_of("a/b/c//"), Some("a/b/".to_string()));
}

#[test]
fn go_up_and_enter() {
    assert_eq!(go_up_path(""), "");
    assert_eq!(go_up_path("League/Starters/"), "League/");
    assert_eq!(enter_folder_path("League/", "Starters"), "League/Starters/");
    assert_eq!(enter_folder_path("", "League"), "League/");
}

#[test]
fn going_up_undoes_entering() {
    for here in ["", "League/", "a/b/"] {
        for folder in ["x", "Starters", "é"] {
            assert_eq!(go_up_path(&enter_folder_path(here, folder)), here);
        }
    }
}

#[test]
fn relative_prefix_cases() {
    assert_eq!(relative_prefix("League/Starters/", "League/"), "Starters/");
    assert_eq!(relative_prefix("League/", "League/"), "");
    assert_eq!(relative_prefix("Other/", "League/"), "");
    assert_eq!(relative_prefix("a/", ""), "a/");
}

#[test]
fn script_paths() {
    assert_eq!(module_file_path("Modules/Main"), "Modules/Main.lua");
    assert_eq!(module_file_path("Modules/Main.lua"), "Modules/Main.lua");
    assert_eq!(folder_search_dir("Builds/*"), "Builds");
    assert_eq!(folder_search_dir("Builds*"), "Builds");
    assert_eq!(folder_search_dir("Builds"), "Builds");
    assert_eq!(user_dir_path("/home/u"), "/home/u/");
    assert_eq!(user_dir_path("/home/u/"), "/home/u/");
    assert_eq!(user_dir_path(""), "/");
}
