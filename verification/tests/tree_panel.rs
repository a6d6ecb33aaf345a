use pob_egui::tree_panel::{
    after_import, after_prompt_call, after_spec_switch, compare_fetch_needed, convert_offer,
    convert_popup_step, manage_specs_step, mastery_popup_step, matches_stale_after_change,
    tree_toolbar_step, ConvertCall, ConvertEvent, ConvertRequest, ManageAction, ManageEvent,
    ManageSpecs, ToolbarAction, ToolbarEvent, TreeToolbar,
};
use pob_egui::tree_specs::SpecAction;

fn toolbar() -> TreeToolbar {
    TreeToolbar {
        active_spec: 2,
        manage_open: false,
        convert: None,
        compare_enabled: false,
        compare_index: 0,
        search: "life".to_string(),
        search_cycle: None,
    }
}

#[test]
fn spec_switch_and_compare() {
    let (t, a) = tree_toolbar_step(toolbar(), ToolbarEvent::PickSpec(3));
    assert!(matches!(a, ToolbarAction::SwitchSpec(3)));
    assert_eq!(after_spec_switch(t, 3, true).active_spec, 3);
    assert_eq!(after_spec_switch(toolbar(), 3, false).active_spec, 2);
    let (_, a) = tree_toolbar_step(toolbar(), ToolbarEvent::PickSpec(2));
    assert!(matches!(a, ToolbarAction::Nothing));
    let (t, a) = tree_toolbar_step(toolbar(), ToolbarEvent::CompareToggled(true));
    assert!(matches!(a, ToolbarAction::DropCompareDiff));
    assert!(t.compare_enabled);
    assert_eq!(t.compare_index, 2);
    let (t, _) = tree_toolbar_step(t, ToolbarEvent::PickCompare(1));
    let (t, _) = tree_toolbar_step(t, ToolbarEvent::CompareToggled(false));
    let (t, _) = tree_toolbar_step(t, ToolbarEvent::CompareToggled(true));
    assert_eq!(t.compare_index, 1);
    assert!(compare_fetch_needed(true, 1, None));
    assert!(compare_fetch_needed(true, 1, Some(2)));
    assert!(!compare_fetch_needed(true, 1, Some(1)));
    assert!(!compare_fetch_needed(true, 0, None));
    assert!(!compare_fetch_needed(false, 1, None));
}

#[test]
fn version_choice_opens_the_convert_popup() {
    let (t, _) = tree_toolbar_step(
        toolbar(),
        ToolbarEvent::PickVersion("3_27".to_string(), "3.27".to_string(), "3_26".to_string()),
    );
    let c = t.convert.unwrap();
    assert_eq!((c.version.as_str(), c.display.as_str(), c.all, c.ignore_sub_type), ("3_27", "3.27", false, true));
    let (t, _) = tree_toolbar_step(
        toolbar(),
        ToolbarEvent::PickVersion("3_26".to_string(), "3.26".to_string(), "3_26".to_string()),
    );
    assert!(t.convert.is_none());
    let (t, _) = tree_toolbar_step(toolbar(), ToolbarEvent::ConvertLatest("3_27".to_string(), "3.27".to_string(), true));
    let c = t.convert.unwrap();
    assert!(c.all && !c.ignore_sub_type);
    assert_eq!(convert_offer(true, true, 2), (true, true));
    assert_eq!(convert_offer(true, true, 1), (true, false));
    assert_eq!(convert_offer(true, false, 2), (false, false));
    assert_eq!(convert_offer(false, true, 2), (false, false));
}

#[test]
fn search_cycles_through_matches() {
    let (t, a) = tree_toolbar_step(toolbar(), ToolbarEvent::Jump(true, 3));
    assert!(matches!(a, ToolbarAction::JumpTo(0)));
    let (t, a) = tree_toolbar_step(t, ToolbarEvent::Jump(false, 3));
    assert!(matches!(a, ToolbarAction::JumpTo(2)));
    let (t, a) = tree_toolbar_step(t, ToolbarEvent::Jump(true, 3));
    assert!(matches!(a, ToolbarAction::JumpTo(0)));
    let (t, a) = tree_toolbar_step(t, ToolbarEvent::Jump(true, 0));
    assert!(matches!(a, ToolbarAction::Nothing));
    let (t, a) = tree_toolbar_step(t, ToolbarEvent::SearchEdited("mana".to_string()));
    assert!(matches!(a, ToolbarAction::FindMatches));
    assert_eq!(t.search_cycle, None);
    let (t, a) = tree_toolbar_step(t, ToolbarEvent::ClearSearch);
    assert!(matches!(a, ToolbarAction::ClearMatches));
    assert!(t.search.is_empty());
    let (t, _) = tree_toolbar_step(t, ToolbarEvent::Manage);
    assert!(t.manage_open);
    assert!(matches_stale_after_change(true, " x "));
    assert!(!matches_stale_after_change(true, "  "));
    assert!(!matches_stale_after_change(false, "x"));
    assert_eq!(mastery_popup_step(Some(5), false), (Some(5), true));
    assert_eq!(mastery_popup_step(None, true), (None, true));
    assert_eq!(mastery_popup_step(None, false), (None, false));
}

fn manager() -> ManageSpecs {
    ManageSpecs {
        open: true,
        prompt: None,
        import_url: "  https://poeurl.com/abc ".to_string(),
        import_error: Some("old".to_string()),
        export_url: Some("x".to_string()),
    }
}

#[test]
fn spec_manager_frames() {
    let (_, a) = manage_specs_step(manager(), 1, 2, ManageEvent::Activate(2));
    assert!(matches!(a, ManageAction::Activate(2)));
    let (_, a) = manage_specs_step(manager(), 1, 2, ManageEvent::Activate(1));
    assert!(matches!(a, ManageAction::Nothing));
    let (_, a) = manage_specs_step(manager(), 1, 2, ManageEvent::Delete(2));
    assert!(matches!(a, ManageAction::Delete(2)));
    let (_, a) = manage_specs_step(manager(), 1, 1, ManageEvent::Delete(1));
    assert!(matches!(a, ManageAction::Nothing));
    let (m, _) = manage_specs_step(manager(), 1, 2, ManageEvent::Copy(2, "Leveling".to_string()));
    assert_eq!(m.prompt, Some((SpecAction::Copy(2), "Leveling (copy)".to_string())));
    let (m, _) = manage_specs_step(m, 1, 2, ManageEvent::PromptEdited("  Mapping ".to_string()));
    let (m, a) = manage_specs_step(m, 1, 2, ManageEvent::PromptOk);
    assert!(matches!(a, ManageAction::RunPrompt(SpecAction::Copy(2), ref n) if n == "Mapping"));
    let (m, rebuild) = after_prompt_call(m, SpecAction::Copy(2), true);
    assert!(rebuild);
    assert!(m.prompt.is_none());
    let (m, _) = manage_specs_step(m, 1, 2, ManageEvent::Rename(1, "Main".to_string()));
    assert_eq!(m.prompt, Some((SpecAction::Rename(1), "Main".to_string())));
    let (_, rebuild) = after_prompt_call(ManageSpecs { prompt: None, ..manager() }, SpecAction::Rename(1), true);
    assert!(!rebuild);
    let (m, _) = manage_specs_step(manager(), 1, 2, ManageEvent::New);
    assert_eq!(m.prompt, Some((SpecAction::New, "Default".to_string())));
    let (m, _) = manage_specs_step(m, 1, 2, ManageEvent::PromptEdited("   ".to_string()));
    let (_, a) = manage_specs_step(m, 1, 2, ManageEvent::PromptOk);
    assert!(matches!(a, ManageAction::Nothing));
    let (_, a) = manage_specs_step(manager(), 1, 2, ManageEvent::ImportTree);
    assert!(matches!(a, ManageAction::Import(ref u) if u == "https://poeurl.com/abc"));
    let done = after_import(manager(), None);
    assert!(done.import_url.is_empty() && done.import_error.is_none());
    let refused = after_import(manager(), Some("bad link".to_string()));
    assert_eq!(refused.import_error.as_deref(), Some("bad link"));
    let (m, _) = manage_specs_step(manager(), 1, 2, ManageEvent::Done);
    assert!(!m.open && m.prompt.is_none() && m.import_error.is_none() && m.export_url.is_none());
    let (_, a) = manage_specs_step(manager(), 1, 2, ManageEvent::ExportTree);
    assert!(matches!(a, ManageAction::Export));
}

#[test]
fn convert_popup_buttons() {
    let one = ConvertRequest { version: "3_27".to_string(), display: "3.27".to_string(), all: false, ignore_sub_type: true };
    let all = ConvertRequest { all: true, ignore_sub_type: false, ..one_copy(&one) };
    assert!(matches!(convert_popup_step(&one, ConvertEvent::Convert), (true, ConvertCall::One(ref v, true, true)) if v == "3_27"));
    assert!(matches!(convert_popup_step(&one, ConvertEvent::CopyConvert), (true, ConvertCall::One(ref v, false, true)) if v == "3_27"));
    assert!(matches!(convert_popup_step(&all, ConvertEvent::Convert), (true, ConvertCall::All(ref v)) if v == "3_27"));
    assert!(matches!(convert_popup_step(&all, ConvertEvent::CopyConvert), (false, ConvertCall::Nothing)));
    assert!(matches!(convert_popup_step(&one, ConvertEvent::Cancel), (true, ConvertCall::Nothing)));
    assert!(matches!(convert_popup_step(&one, ConvertEvent::Idle), (false, ConvertCall::Nothing)));
}

fn one_copy(c: &ConvertRequest) -> ConvertRequest {
    ConvertRequest { version: c.version.clone(), display: c.display.clone(), all: c.all, ignore_sub_type: c.ignore_sub_type }
}
