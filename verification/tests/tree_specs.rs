use pob_egui::tree_specs::{spec_action_rebuilds, spec_prompt_text, spec_row_buttons, SpecAction};

#[test]
fn prompt_texts() {
    assert_eq!(spec_prompt_text(SpecAction::New, "Main"), "Default");
    assert_eq!(spec_prompt_text(SpecAction::Copy(2), "Main"), "Main (copy)");
    assert_eq!(spec_prompt_text(SpecAction::Rename(1), "Main"), "Main");
}

#[test]
fn only_new_and_copied_specs_rebuild() {
    assert!(spec_action_rebuilds(SpecAction::New));
    assert!(spec_action_rebuilds(SpecAction::Copy(1)));
    assert!(!spec_action_rebuilds(SpecAction::Rename(1)));
}

#[test]
fn row_buttons() {
    assert_eq!(spec_row_buttons(1, 1, 1), (false, false));
    assert_eq!(spec_row_buttons(2, 1, 3), (true, true));
    assert_eq!(spec_row_buttons(1, 1, 3), (true, false));
}
