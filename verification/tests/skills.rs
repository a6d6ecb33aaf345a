use pob_egui::skills::{
    action_changed, add_field_after, add_gem_action, apply_outcome, confirm_delete_step,
    gem_drop_action, gem_row_actions, group_drop_action, header_actions, imbued_action,
    imbued_shown, panel_actions, set_manager_step, slot_action, GemProperty, GemRowInput,
    GroupHeader, HeaderInput, ImbuedShown, PanelInput, SetEvent, SetManager, SetPromptFor,
    SkillAction, SkillReply,
};

fn header(index: usize, is_main: bool, from_item: bool, has_gems: bool) -> GroupHeader {
    GroupHeader {
        index,
        label: "Main".to_string(),
        is_main,
        enabled: true,
        from_item,
        has_gems,
    }
}

fn no_input() -> HeaderInput {
    HeaderInput {
        enabled_clicked: None,
        set_main_clicked: false,
        label_committed: None,
        copy_clicked: false,
        delete_clicked: false,
        full_dps_clicked: None,
        count_committed: None,
    }
}

#[test]
fn copying_never_changes_the_build() {
    assert!(!action_changed(&SkillAction::CopyGroup(1), SkillReply::Done));
    assert!(action_changed(&SkillAction::NewGroup, SkillReply::Done));
    assert!(!action_changed(&SkillAction::NewGroup, SkillReply::Failed));
    assert!(!action_changed(&SkillAction::AddGem(1, "Fireball".to_string()), SkillReply::DoneWithMessage));
    assert!(action_changed(
        &SkillAction::SetImbuedSupport(1, Some("Added Fire".to_string())),
        SkillReply::DoneWithMessage
    ));
    assert!(!action_changed(&SkillAction::PasteGroup("x".to_string()), SkillReply::NothingToPaste));
}

#[test]
fn a_frame_changes_the_build_when_any_action_did() {
    let actions = vec![
        SkillAction::CopyGroup(1),
        SkillAction::SetGem(1, 2, GemProperty::Level(20)),
        SkillAction::Refresh,
    ];
    assert!(!apply_outcome(&actions, &vec![SkillReply::Done, SkillReply::Failed, SkillReply::Failed]));
    assert!(apply_outcome(&actions, &vec![SkillReply::Done, SkillReply::Failed, SkillReply::Done]));
    assert!(!apply_outcome(&Vec::new(), &Vec::new()));
}

#[test]
fn header_clicks_become_actions_in_order() {
    let mut input = no_input();
    input.enabled_clicked = Some(false);
    input.set_main_clicked = true;
    input.label_committed = Some("Clear".to_string());
    input.copy_clicked = true;
    input.full_dps_clicked = Some(true);
    let (actions, pending) = header_actions(header(3, false, false, false), input);
    assert_eq!(actions.len(), 5);
    assert!(matches!(actions[0], SkillAction::SetEnabled(3, false)));
    assert!(matches!(actions[1], SkillAction::SetMain(3)));
    assert!(matches!(&actions[2], SkillAction::SetLabel(3, l) if l == "Clear"));
    assert!(matches!(actions[3], SkillAction::CopyGroup(3)));
    assert!(matches!(actions[4], SkillAction::SetFullDps(3, true)));
    assert_eq!(pending, None);
}

#[test]
fn unchanged_label_and_main_group_ask_for_nothing() {
    let mut input = no_input();
    input.set_main_clicked = true;
    input.label_committed = Some("Main".to_string());
    let (actions, pending) = header_actions(header(1, true, false, true), input);
    assert!(actions.is_empty());
    assert_eq!(pending, None);
}

#[test]
fn deleting_a_group_with_gems_waits_for_confirmation() {
    let mut input = no_input();
    input.delete_clicked = true;
    let (actions, pending) = header_actions(header(2, false, false, true), input);
    assert!(actions.is_empty());
    assert_eq!(pending, Some(2));

    let mut input = no_input();
    input.delete_clicked = true;
    let (actions, pending) = header_actions(header(2, false, false, false), input);
    assert_eq!(actions.len(), 1);
    assert!(matches!(actions[0], SkillAction::DeleteGroup(2)));
    assert_eq!(pending, None);
}

#[test]
fn item_groups_cannot_be_deleted_but_take_a_count() {
    let mut input = no_input();
    input.delete_clicked = true;
    input.count_committed = Some(4);
    let (actions, pending) = header_actions(header(5, false, true, true), input);
    assert_eq!(actions.len(), 1);
    assert!(matches!(actions[0], SkillAction::SetGroupCount(5, 4)));
    assert_eq!(pending, None);

    let mut input = no_input();
    input.count_committed = Some(4);
    let (actions, _) = header_actions(header(5, false, false, true), input);
    assert!(actions.is_empty());
}

#[test]
fn gem_drops_move_within_their_group() {
    assert!(matches!(gem_drop_action(2, 2, 1, 3), Some(SkillAction::MoveGem(2, 1, 3))));
    assert!(gem_drop_action(2, 1, 1, 3).is_none());
    assert!(gem_drop_action(2, 2, 3, 3).is_none());
}

#[test]
fn added_gem_name_is_trimmed() {
    assert!(matches!(add_gem_action(1, "  Fireball ", true), Some(SkillAction::AddGem(1, n)) if n == "Fireball"));
    assert!(add_gem_action(1, "   ", true).is_none());
    assert!(add_gem_action(1, "Fireball", false).is_none());
}

fn no_row_input() -> GemRowInput {
    GemRowInput {
        enabled_clicked: None,
        level_committed: None,
        quality_committed: None,
        count_committed: None,
        has_count: false,
        has_global1: false,
        has_global2: false,
        global1_clicked: None,
        global2_clicked: None,
        remove_clicked: false,
    }
}

#[test]
fn gem_rows_ask_for_their_edits_in_order() {
    let mut i = no_row_input();
    i.enabled_clicked = Some(false);
    i.level_committed = Some(21);
    i.quality_committed = Some(20);
    i.count_committed = Some(3);
    i.global1_clicked = Some(true);
    i.has_global2 = true;
    i.global2_clicked = Some(false);
    i.remove_clicked = true;
    let a = gem_row_actions(2, 4, i);
    assert_eq!(a.len(), 5);
    assert!(matches!(a[0], SkillAction::SetGem(2, 4, GemProperty::Enabled(false))));
    assert!(matches!(a[1], SkillAction::SetGem(2, 4, GemProperty::Level(21))));
    assert!(matches!(a[2], SkillAction::SetGem(2, 4, GemProperty::Quality(20))));
    assert!(matches!(a[3], SkillAction::SetGem(2, 4, GemProperty::EnableGlobal2(false))));
    assert!(matches!(a[4], SkillAction::RemoveGem(2, 4)));
    let mut i = no_row_input();
    i.has_count = true;
    i.count_committed = Some(3);
    let a = gem_row_actions(1, 1, i);
    assert!(matches!(a[..], [SkillAction::SetGem(1, 1, GemProperty::Count(3))]));
    assert!(gem_row_actions(1, 1, no_row_input()).is_empty());
}

#[test]
fn slot_and_imbued_choices() {
    assert!(matches!(
        slot_action(3, false, "None", "Body Armour", Some("Body Armour".to_string())),
        Some(SkillAction::SetSlot(3, Some(ref s))) if s == "Body Armour"
    ));
    assert!(matches!(slot_action(3, false, "Helmet", "None", None), Some(SkillAction::SetSlot(3, None))));
    assert!(slot_action(3, false, "Helmet", "Helmet", Some("Helmet".to_string())).is_none());
    assert!(slot_action(3, true, "None", "Helmet", Some("Helmet".to_string())).is_none());

    assert_eq!(imbued_shown(3, false, false, false, None), ImbuedShown::Hidden);
    assert_eq!(imbued_shown(3, true, true, false, None), ImbuedShown::Hidden);
    assert_eq!(imbued_shown(3, true, false, true, Some(3)), ImbuedShown::Current);
    assert_eq!(imbued_shown(3, true, false, false, Some(5)), ImbuedShown::Choices(false));
    assert_eq!(imbued_shown(3, true, false, false, Some(3)), ImbuedShown::Choices(true));
    assert_eq!(imbued_shown(3, true, false, false, None), ImbuedShown::Choices(true));
    assert!(matches!(imbued_action(3, ImbuedShown::Current, true, None), Some(SkillAction::SetImbuedSupport(3, None))));
    assert!(matches!(
        imbued_action(3, ImbuedShown::Choices(true), false, Some("Added Fire".to_string())),
        Some(SkillAction::SetImbuedSupport(3, Some(ref n))) if n == "Added Fire"
    ));
    assert!(imbued_action(3, ImbuedShown::Choices(false), false, Some("Added Fire".to_string())).is_none());
    assert!(imbued_action(3, ImbuedShown::Hidden, true, None).is_none());
}

#[test]
fn group_moves_and_delete_confirmation() {
    assert!(matches!(group_drop_action(1, 3), Some(SkillAction::MoveGroup(1, 3))));
    assert!(group_drop_action(2, 2).is_none());
    assert!(matches!(confirm_delete_step(Some(4), true, false), (None, Some(SkillAction::DeleteGroup(4)))));
    assert!(matches!(confirm_delete_step(Some(4), false, true), (None, None)));
    assert!(matches!(confirm_delete_step(Some(4), false, false), (Some(4), None)));
    assert!(matches!(confirm_delete_step(None, true, false), (None, None)));
}

fn quiet_panel() -> PanelInput {
    PanelInput {
        undo_redo_done: false,
        copy_key: false,
        paste_key: None,
        set_picked: None,
        new_group: false,
        paste_button: None,
        delete_all_clicked: false,
        delete_all_confirmed: false,
        delete_all_cancelled: false,
    }
}

#[test]
fn panel_level_actions() {
    let mut i = quiet_panel();
    i.undo_redo_done = true;
    i.copy_key = true;
    i.paste_key = Some("group text".to_string());
    i.set_picked = Some(2);
    i.new_group = true;
    let (a, open) = panel_actions(i, Some(1), 1, true, false);
    assert_eq!(a.len(), 5);
    assert!(matches!(a[0], SkillAction::Refresh));
    assert!(matches!(a[1], SkillAction::CopyGroup(1)));
    assert!(matches!(&a[2], SkillAction::PasteGroup(t) if t == "group text"));
    assert!(matches!(a[3], SkillAction::ActivateSet(2)));
    assert!(matches!(a[4], SkillAction::NewGroup));
    assert!(!open);
    let mut i = quiet_panel();
    i.copy_key = true;
    i.set_picked = Some(1);
    let (a, _) = panel_actions(i, None, 1, true, false);
    assert!(a.is_empty());
    let mut i = quiet_panel();
    i.delete_all_clicked = true;
    assert_eq!(panel_actions(i, None, 1, true, false).1, true);
    let mut i = quiet_panel();
    i.delete_all_clicked = true;
    assert_eq!(panel_actions(i, None, 1, false, false).1, false);
    let mut i = quiet_panel();
    i.delete_all_confirmed = true;
    let (a, open) = panel_actions(i, None, 1, true, true);
    assert!(matches!(a[..], [SkillAction::DeleteAllGroups]));
    assert!(!open);
    let mut i = quiet_panel();
    i.delete_all_cancelled = true;
    let (a, open) = panel_actions(i, None, 1, true, true);
    assert!(a.is_empty() && !open);
}

#[test]
fn add_gem_field_after_the_answer() {
    let e = Some("old".to_string());
    assert_eq!(add_field_after("Fireball".to_string(), e.clone(), SkillReply::Done, String::new()), (String::new(), None));
    assert_eq!(
        add_field_after("Firebal".to_string(), None, SkillReply::DoneWithMessage, "Unknown gem".to_string()),
        ("Firebal".to_string(), Some("Unknown gem".to_string()))
    );
    assert_eq!(add_field_after("x".to_string(), e.clone(), SkillReply::Failed, String::new()), ("x".to_string(), e));
}

fn sets() -> SetManager {
    SetManager { open: true, prompt: None, confirm_delete: None }
}

#[test]
fn skill_set_manager_frames() {
    assert!(matches!(set_manager_step(sets(), 1, 2, SetEvent::Activate(2)).1, Some(SkillAction::ActivateSet(2))));
    assert!(set_manager_step(sets(), 1, 2, SetEvent::Activate(1)).1.is_none());
    let (m, a) = set_manager_step(sets(), 1, 2, SetEvent::Delete(2));
    assert_eq!(m.confirm_delete, Some(2));
    assert!(a.is_none());
    let (m, a) = set_manager_step(m, 1, 2, SetEvent::ConfirmDelete);
    assert!(matches!(a, Some(SkillAction::DeleteSet(2))));
    assert_eq!(m.confirm_delete, None);
    assert_eq!(set_manager_step(sets(), 1, 1, SetEvent::Delete(1)).0.confirm_delete, None);
    let (m, _) = set_manager_step(sets(), 1, 2, SetEvent::Copy(2, "Bossing".to_string()));
    assert_eq!(m.prompt, Some((SetPromptFor::Copy(2), "Bossing (copy)".to_string())));
    let (m, a) = set_manager_step(m, 1, 2, SetEvent::PromptOk);
    assert!(matches!(a, Some(SkillAction::CopySet(2, ref n)) if n == "Bossing (copy)"));
    assert!(m.prompt.is_none());
    let (m, _) = set_manager_step(sets(), 1, 2, SetEvent::New);
    assert_eq!(m.prompt, Some((SetPromptFor::New, String::new())));
    let (m, a) = set_manager_step(m, 1, 2, SetEvent::PromptOk);
    assert!(a.is_none() && m.prompt.is_some());
    let (m, _) = set_manager_step(m, 1, 2, SetEvent::Close);
    assert!(m.open);
    let (m, _) = set_manager_step(m, 1, 2, SetEvent::PromptEdited(" Mapping ".to_string()));
    let (m, a) = set_manager_step(m, 1, 2, SetEvent::PromptOk);
    assert!(matches!(a, Some(SkillAction::NewSet(ref n)) if n == "Mapping"));
    let (m, _) = set_manager_step(m, 1, 2, SetEvent::Rename(1, "Main".to_string()));
    let (m, _) = set_manager_step(m, 1, 2, SetEvent::PromptCancel);
    let (m, _) = set_manager_step(m, 1, 2, SetEvent::Close);
    assert!(!m.open);
}
