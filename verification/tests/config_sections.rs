use pob_egui::config::{
    config_step, group_by_section, option_mark, order_sections, visible_sections, ConfigAction,
    ConfigEntry, ConfigEvent, ConfigUi, OptionMark, OptionText, SECTION_ORDER_LEN,
};

fn section(label: &str) -> ConfigEntry {
    ConfigEntry::Section { label: label.to_string() }
}

#[test]
fn options_grouped_under_their_section() {
    let options = vec![
        ConfigEntry::Setting,
        section("General"),
        ConfigEntry::Setting,
        ConfigEntry::Setting,
        section("Empty"),
        section("X"),
        ConfigEntry::Setting,
    ];
    assert_eq!(
        group_by_section(&options),
        vec![
            (String::new(), vec![0]),
            ("General".to_string(), vec![2, 3]),
            ("Empty".to_string(), vec![]),
            ("X".to_string(), vec![6]),
        ]
    );
}

#[test]
fn unnamed_empty_sections_are_dropped() {
    let options = vec![section(""), section("A"), ConfigEntry::Setting, section("")];
    assert_eq!(group_by_section(&options), vec![("A".to_string(), vec![2])]);
    assert_eq!(group_by_section(&Vec::new()), Vec::<(String, Vec<usize>)>::new());
}

#[test]
fn sections_laid_out_by_fixed_order_then_list_order() {
    assert_eq!(SECTION_ORDER_LEN, 7);
    let labels: Vec<String> = ["Enemy Stats", "General", "Other", "When In Combat", "Other2", "General"]
        .iter()
        .map(|s| s.to_string())
        .collect();
    assert_eq!(order_sections(&labels), vec![1, 5, 3, 0, 2, 4]);
    let all: Vec<String> = [
        "Map Modifiers and Player Debuffs",
        "Skill Options",
        "Custom Modifiers",
        "For Effective DPS",
        "When In Combat",
        "General",
        "Enemy Stats",
    ]
    .iter()
    .map(|s| s.to_string())
    .collect();
    assert_eq!(order_sections(&all), vec![5, 4, 3, 2, 1, 0, 6]);
    assert_eq!(order_sections(&Vec::new()), Vec::<usize>::new());
}

#[test]
fn every_option_lands_in_one_section() {
    let options = vec![
        ConfigEntry::Setting,
        section("A"),
        ConfigEntry::Setting,
        section(""),
        section("B"),
        ConfigEntry::Setting,
        ConfigEntry::Setting,
    ];
    let all: Vec<usize> = group_by_section(&options).into_iter().flat_map(|(_, idx)| idx).collect();
    assert_eq!(all, vec![0, 2, 5, 6]);
}

fn text(label: &str, var: Option<&str>) -> OptionText {
    OptionText { label: label.to_string(), var: var.map(|v| v.to_string()) }
}

fn searched_options() -> (Vec<ConfigEntry>, Vec<OptionText>) {
    let options = vec![
        section("General"),
        ConfigEntry::Setting,
        ConfigEntry::Setting,
        section("Custom Modifiers"),
        section("Enemy Stats"),
        ConfigEntry::Setting,
    ];
    let texts = vec![
        text("", None),
        text("Life Regen per second", None),
        text("Use Power Charges", Some("usePowerCharges")),
        text("", None),
        text("", None),
        text("Enemy Level", Some("enemyLevel")),
    ];
    (options, texts)
}

#[test]
fn config_search_keeps_matching_options_and_custom_modifiers() {
    let (options, texts) = searched_options();
    let shown = vec![true; 6];
    assert_eq!(
        visible_sections(&options, &texts, &shown, "LIFE"),
        vec![("General".to_string(), vec![1]), ("Custom Modifiers".to_string(), vec![])]
    );
    assert_eq!(
        visible_sections(&options, &texts, &shown, "enemylevel"),
        vec![("Custom Modifiers".to_string(), vec![]), ("Enemy Stats".to_string(), vec![5])]
    );
    assert_eq!(
        visible_sections(&options, &texts, &shown, ""),
        vec![
            ("General".to_string(), vec![1, 2]),
            ("Custom Modifiers".to_string(), vec![]),
            ("Enemy Stats".to_string(), vec![5]),
        ]
    );
}

#[test]
fn hidden_options_get_no_row() {
    let (options, texts) = searched_options();
    let shown = vec![true, true, false, true, true, false];
    assert_eq!(
        visible_sections(&options, &texts, &shown, ""),
        vec![("General".to_string(), vec![1]), ("Custom Modifiers".to_string(), vec![])]
    );
}

fn config_ui() -> ConfigUi {
    ConfigUi { search: "life".to_string(), show_all: false, confirm_reset: false, manage_open: false }
}

#[test]
fn config_bar_frames() {
    assert!(matches!(config_step(config_ui(), 1, ConfigEvent::UndoRedoDone).1, ConfigAction::RefreshVisibility));
    assert!(matches!(config_step(config_ui(), 1, ConfigEvent::PickSet(2)).1, ConfigAction::ActivateSet(2)));
    assert!(matches!(config_step(config_ui(), 1, ConfigEvent::PickSet(1)).1, ConfigAction::Nothing));
    let (c, a) = config_step(config_ui(), 1, ConfigEvent::AskReset);
    assert!(c.confirm_reset && matches!(a, ConfigAction::Nothing));
    let (c, a) = config_step(c, 1, ConfigEvent::ConfirmReset);
    assert!(!c.confirm_reset && matches!(a, ConfigAction::ResetDefaults));
    let (c, a) = config_step(c, 1, ConfigEvent::ConfirmReset);
    assert!(!c.confirm_reset && matches!(a, ConfigAction::Nothing));
    let (c, _) = config_step(config_ui(), 1, ConfigEvent::ClearSearch);
    assert!(c.search.is_empty());
    let (c, _) = config_step(c, 1, ConfigEvent::ShowAll(true));
    assert!(c.show_all);
    let (c, _) = config_step(c, 1, ConfigEvent::Manage);
    assert!(c.manage_open);
    assert_eq!(option_mark(true, false), OptionMark::Invalid);
    assert_eq!(option_mark(false, false), OptionMark::Dim);
    assert_eq!(option_mark(false, true), OptionMark::Plain);
}
