use pob_egui::tabs::BuildTab;
use pob_egui::build_header::{
    class_pick, level_header_step, main_skill_step, tab_refresh, MainSkillAction, MainSkillEvent,
    TabRefresh,
    ascendancy_after_class, back_clicked, points_colour, save_as_step, save_clicked, save_failed,
    HeaderAction, SaveAsDialog, SaveAsStep,
};
use pob_egui::colors::Rgb;

fn dialog(name: &str) -> SaveAsDialog {
    SaveAsDialog { name: name.to_string(), error: None }
}

#[test]
fn save_as_dialog_steps() {
    match save_as_step(dialog("  My Build "), true, false, false) {
        SaveAsStep::SaveAs(n) => assert_eq!(n, "My Build"),
        _ => panic!("expected a save"),
    }
    match save_as_step(dialog("   "), true, true, false) {
        SaveAsStep::Stay(d) => {
            assert_eq!(d.name, "   ");
            assert_eq!(d.error.as_deref(), Some("Name cannot be empty."));
        }
        _ => panic!("expected the dialog to stay"),
    }
    assert!(matches!(save_as_step(dialog("x"), false, true, true), SaveAsStep::Discard));
    assert!(matches!(save_as_step(dialog("x"), false, false, true), SaveAsStep::Close));
    match save_as_step(dialog("x"), false, false, false) {
        SaveAsStep::Stay(d) => assert_eq!((d.name.as_str(), d.error), ("x", None)),
        _ => panic!("expected the dialog to stay"),
    }
    let failed = save_failed(dialog("x"), "disk full");
    assert_eq!(failed.error.as_deref(), Some("Save failed: disk full"));
}

#[test]
fn back_and_save_buttons() {
    assert!(matches!(back_clicked(true, "New Build"), HeaderAction::OpenSaveAs(n) if n == "New Build"));
    assert!(matches!(back_clicked(false, "B"), HeaderAction::Leave));
    assert!(matches!(save_clicked(true, "New Build"), HeaderAction::OpenSaveAs(n) if n == "New Build"));
    assert!(matches!(save_clicked(false, "B"), HeaderAction::SaveNow));
}

#[test]
fn points_and_class_choice() {
    assert_eq!(points_colour(123, 122), Rgb::new(255, 80, 80));
    assert_eq!(points_colour(122, 122), Rgb::new(200, 200, 200));
    assert_eq!(ascendancy_after_class(1, 2, 3), 0);
    assert_eq!(ascendancy_after_class(2, 2, 3), 3);
}

#[test]
fn class_and_level_controls() {
    assert_eq!(class_pick(2, 1, Some(3), None), (3, 0, true));
    assert_eq!(class_pick(2, 1, Some(2), None), (2, 1, false));
    assert_eq!(class_pick(2, 1, None, Some(2)), (2, 2, true));
    assert_eq!(class_pick(2, 1, None, None), (2, 1, false));
    assert_eq!(level_header_step(true, false, true), (false, true));
    assert_eq!(level_header_step(true, true, false), (true, true));
    assert_eq!(level_header_step(false, false, false), (false, false));
}

#[test]
fn main_skill_controls() {
    assert_eq!(main_skill_step(MainSkillEvent::Group(2, 1)), MainSkillAction::SetGroup(2));
    assert_eq!(main_skill_step(MainSkillEvent::Skill(1, 1)), MainSkillAction::Nothing);
    assert_eq!(main_skill_step(MainSkillEvent::Part(0, 1)), MainSkillAction::SetPart(0));
    assert_eq!(main_skill_step(MainSkillEvent::StageMinus(1)), MainSkillAction::SetStages(1));
    assert_eq!(main_skill_step(MainSkillEvent::StageMinus(5)), MainSkillAction::SetStages(4));
    assert_eq!(main_skill_step(MainSkillEvent::StagePlus(5)), MainSkillAction::SetStages(6));
    assert_eq!(main_skill_step(MainSkillEvent::MineMinus(-3)), MainSkillAction::SetMines(1));
    assert_eq!(main_skill_step(MainSkillEvent::MinePlus(i32::MAX)), MainSkillAction::SetMines(2147483648));
}

#[test]
fn tab_changes_refresh_what_they_touch() {
    assert_eq!(tab_refresh(BuildTab::Tree, true), TabRefresh::Stats);
    assert_eq!(tab_refresh(BuildTab::Config, true), TabRefresh::Stats);
    assert_eq!(tab_refresh(BuildTab::Skills, true), TabRefresh::StatsAndSkills);
    assert_eq!(tab_refresh(BuildTab::Import, true), TabRefresh::Everything);
    assert_eq!(tab_refresh(BuildTab::Items, true), TabRefresh::Nothing);
    assert_eq!(tab_refresh(BuildTab::Tree, false), TabRefresh::Nothing);
}
