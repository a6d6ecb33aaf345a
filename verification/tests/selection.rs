use pob_egui::selection::{
    character_level, distinct_leagues, filtered_character_indices, find_current_selection,
    league_filter_index, lua_selection, AscendEntry, ClassEntry,
};

#[test]
fn lua_selection_is_zero_based_and_clamped() {
    assert_eq!(lua_selection(3, 5), 2);
    assert_eq!(lua_selection(1, 5), 0);
    assert_eq!(lua_selection(0, 5), 0);
    assert_eq!(lua_selection(10, 5), 4);
    assert_eq!(lua_selection(1, 0), 0);
    assert_eq!(lua_selection(0, 0), 0);
}

fn classes() -> Vec<ClassEntry> {
    let asc = |id: u32, name: &str| AscendEntry { ascend_class_id: id, name: name.to_string() };
    vec![
        ClassEntry {
            class_id: 3,
            name: "Witch".to_string(),
            ascendancies: vec![asc(1, "Necromancer"), asc(2, "Elementalist")],
        },
        ClassEntry { class_id: 4, name: "Duelist".to_string(), ascendancies: vec![asc(1, "Slayer")] },
    ]
}

#[test]
fn find_current_selection_positions() {
    let c = classes();
    assert_eq!(find_current_selection(&c, 4, 1), (1, 0));
    assert_eq!(find_current_selection(&c, 3, 2), (0, 1));
    // Unknown ids select the first entry.
    assert_eq!(find_current_selection(&c, 9, 2), (0, 1));
    assert_eq!(find_current_selection(&c, 3, 9), (0, 0));
    assert_eq!(find_current_selection(&Vec::new(), 3, 1), (0, 0));
}

#[test]
fn character_level_parses_and_clamps() {
    assert_eq!(character_level("90"), 90);
    assert_eq!(character_level("0"), 1);
    assert_eq!(character_level("250"), 100);
    assert_eq!(character_level("100"), 100);
    assert_eq!(character_level("abc"), 1);
    assert_eq!(character_level(""), 1);
    assert_eq!(character_level(" 5"), 1);
    assert_eq!(character_level("+7"), 7);
    assert_eq!(character_level("99999999999"), 1);
    assert_eq!(character_level("4294967295"), 100);
    assert_eq!(character_level("4294967296"), 1);
    assert_eq!(character_level("+"), 1);
    assert_eq!(character_level("-3"), 1);
    assert_eq!(character_level("0042"), 42);
    assert_eq!(character_level("4x"), 1);
}

fn strings(v: &[&str]) -> Vec<String> {
    v.iter().map(|s| s.to_string()).collect()
}

#[test]
fn leagues_in_order_of_appearance() {
    assert_eq!(
        distinct_leagues(&strings(&["Std", "HC", "Std", "SSF", "HC"])),
        strings(&["Std", "HC", "SSF"])
    );
    assert_eq!(distinct_leagues(&Vec::new()), Vec::<String>::new());
}

#[test]
fn league_filter_preselects_last_league() {
    let leagues = strings(&["Std", "HC"]);
    assert_eq!(league_filter_index(&leagues, &"HC".to_string()), 2);
    assert_eq!(league_filter_index(&leagues, &"Std".to_string()), 1);
    assert_eq!(league_filter_index(&leagues, &"X".to_string()), 0);
}

#[test]
fn characters_under_a_league_filter() {
    let chars = strings(&["Std", "HC", "Std"]);
    let leagues = strings(&["Std", "HC"]);
    assert_eq!(filtered_character_indices(&chars, &leagues, 0), vec![0, 1, 2]);
    assert_eq!(filtered_character_indices(&chars, &leagues, 1), vec![0, 2]);
    assert_eq!(filtered_character_indices(&chars, &leagues, 2), vec![1]);
}

#[test]
fn each_league_listed_once() {
    let chars = strings(&["A", "B", "A", "C", "B", "C", "A"]);
    let leagues = distinct_leagues(&chars);
    for (i, a) in leagues.iter().enumerate() {
        assert!(chars.contains(a));
        assert!(!leagues[i + 1..].contains(a));
    }
    for c in &chars {
        assert!(leagues.contains(c));
    }
}
