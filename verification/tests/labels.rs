use pob_egui::colors::Rgb;
use pob_egui::labels::{
    build_summary, format_number, preview_heading, set_label, socket_group_title, spec_label,
    stat_style, truncate_label, BuildInfo, Gem, SocketGroup, StatStyle, group_heading, gem_letter_colour,
    gem_name_colour, GroupStyle,
};

#[test]
fn format_number_groups_thousands() {
    assert_eq!(format_number(0), "0");
    assert_eq!(format_number(999), "999");
    assert_eq!(format_number(1000), "1,000");
    assert_eq!(format_number(1234567), "1,234,567");
    assert_eq!(format_number(-1234), "-1,234");
    assert_eq!(format_number(-5), "-5");
    assert_eq!(format_number(-999999), "-999,999");
}

#[test]
fn format_number_extremes() {
    assert_eq!(format_number(i64::MAX), "9,223,372,036,854,775,807");
    assert_eq!(format_number(i64::MIN + 1), "-9,223,372,036,854,775,807");
}

#[test]
fn truncate_label_cases() {
    assert_eq!(truncate_label("Hello World", 5), "Hello…");
    assert_eq!(truncate_label("Hi", 5), "Hi");
    assert_eq!(truncate_label("Hello", 5), "Hello");
    assert_eq!(truncate_label("héllo", 2), "hé…");
    assert_eq!(truncate_label("abc", 0), "…");
    assert_eq!(truncate_label("", 0), "");
}

#[test]
fn set_and_spec_labels() {
    assert_eq!(set_label(""), "Default");
    assert_eq!(set_label("Main set"), "Main set");
    assert_eq!(spec_label("3_25", "Title", false), "[3.25] Title");
    assert_eq!(spec_label("3_25", "Title", true), "Title");
    assert_eq!(spec_label("", "T", false), "[] T");
}

fn gem(name: &str, enabled: bool, is_support: bool) -> Gem {
    Gem { name: name.to_string(), enabled, is_support }
}

#[test]
fn socket_group_title_prefers_label_then_active_gem() {
    let labelled = SocketGroup { label: "Main".to_string(), index: 1, gems: vec![gem("Arc", true, false)] };
    assert_eq!(socket_group_title(&labelled), "Main");
    let group = SocketGroup {
        label: String::new(),
        index: 2,
        gems: vec![
            gem("Added Fire Damage", true, true),
            gem("Fireball", false, false),
            gem("", true, false),
            gem("Arc", true, false),
        ],
    };
    assert_eq!(socket_group_title(&group), "Arc");
}

#[test]
fn socket_group_title_falls_back() {
    let supports = SocketGroup {
        label: String::new(),
        index: 2,
        gems: vec![gem("Added Fire Damage", true, true), gem("Fireball", false, false)],
    };
    assert_eq!(socket_group_title(&supports), "Added Fire Damage");
    let empty = SocketGroup { label: String::new(), index: 3, gems: vec![] };
    assert_eq!(socket_group_title(&empty), "Group 3");
}

fn build(sub_path: &str, ascend: Option<&str>, class: Option<&str>, level: Option<u32>) -> BuildInfo {
    BuildInfo {
        sub_path: sub_path.to_string(),
        build_name: "My Build".to_string(),
        class_name: class.map(|c| c.to_string()),
        ascend_class_name: ascend.map(|c| c.to_string()),
        level,
    }
}

#[test]
fn build_summary_lines() {
    assert_eq!(
        build_summary(&build("", Some("Necromancer"), Some("Witch"), Some(92)), ""),
        "My Build - Necromancer - Lv92"
    );
    assert_eq!(build_summary(&build("", Some("None"), Some("Witch"), None), ""), "My Build - Witch");
    assert_eq!(build_summary(&build("", Some(""), None, Some(1)), ""), "My Build - Lv1");
    assert_eq!(build_summary(&build("", None, None, None), ""), "My Build");
    assert_eq!(
        build_summary(&build("League/Starters/", None, Some("Duelist"), None), "League/"),
        "Starters/My Build - Duelist"
    );
}

#[test]
fn preview_heading_cases() {
    let s = |x: &str| Some(x.to_string());
    assert_eq!(preview_heading(&s("Slayer"), &s("Duelist"), Some(90)), s("Level 90 Slayer"));
    assert_eq!(preview_heading(&s("None"), &s("Duelist"), None), s("Duelist"));
    assert_eq!(preview_heading(&None, &None, Some(5)), s("Level 5"));
    assert_eq!(preview_heading(&None, &None, None), None);
}

#[test]
fn stat_styles() {
    assert_eq!(stat_style("FireResist"), StatStyle::Percent);
    assert_eq!(stat_style("CritChance"), StatStyle::Percent);
    assert_eq!(stat_style("BlockPercent"), StatStyle::Percent);
    assert_eq!(stat_style("CritMultiplier"), StatStyle::Percent);
    assert_eq!(stat_style("Speed"), StatStyle::TwoDecimals);
    assert_eq!(stat_style("HitRate"), StatStyle::TwoDecimals);
    assert_eq!(stat_style("Life"), StatStyle::WholeNumber);
    assert_eq!(stat_style("Int"), StatStyle::WholeNumber);
    assert_eq!(stat_style("TotalDPS"), StatStyle::ByValue);
    // Only the exact names count.
    assert_eq!(stat_style("LifeRegen"), StatStyle::ByValue);
    assert_eq!(stat_style("AttackSpeed"), StatStyle::ByValue);
}

#[test]
fn grouping_keeps_the_digits() {
    for n in [0i64, 7, 999, 1000, -1000, 123456789, -987654321012, i64::MAX] {
        assert_eq!(format_number(n).replace(',', ""), n.to_string());
    }
}

#[test]
fn socket_group_headings() {
    let g = SocketGroup { label: "Aura".to_string(), index: 4, gems: vec![] };
    assert_eq!(group_heading(&g, true, true), ("* Aura".to_string(), GroupStyle::MainSkill));
    assert_eq!(group_heading(&g, false, false), ("Aura".to_string(), GroupStyle::Dim));
    assert_eq!(group_heading(&g, false, true), ("Aura".to_string(), GroupStyle::Normal));
    let empty = SocketGroup { label: String::new(), index: 4, gems: vec![] };
    assert_eq!(group_heading(&empty, true, false), ("* Group 4".to_string(), GroupStyle::MainSkill));
}

#[test]
fn gem_colours() {
    assert_eq!(gem_letter_colour("R"), Rgb::new(223, 90, 75));
    assert_eq!(gem_letter_colour("G"), Rgb::new(80, 190, 80));
    assert_eq!(gem_letter_colour("B"), Rgb::new(100, 130, 255));
    assert_eq!(gem_letter_colour("W"), Rgb::new(200, 200, 200));
    assert_eq!(gem_letter_colour("RG"), Rgb::new(200, 200, 200));
    assert_eq!(gem_name_colour(false, true), Rgb::new(100, 100, 100));
    assert_eq!(gem_name_colour(true, true), Rgb::new(120, 160, 255));
    assert_eq!(gem_name_colour(true, false), Rgb::new(200, 50, 50));
}
