use pob_egui::craft_dialogs::{
    affix_after_call, affix_after_fetch, affix_editor_step, affix_needs_fetch, anoint_after_call,
    anoint_dialog_step, enchant_catalog_stale, enchant_dialog_step, enchant_lists_all,
    enchant_opened, AffixAction, AffixEditor, AffixEvent, AnointEvent, EnchantAction,
    EnchantEvent, EnchantOptions, FetchResult, RollSource,
};
use pob_egui::tabs::CraftUi;

fn editor() -> AffixEditor {
    AffixEditor {
        edit_item: Some(4),
        cached_item: None,
        custom_line: "  +1 to Level of Socketed Gems ".to_string(),
        custom_crafted: true,
    }
}

#[test]
fn affix_data_is_loaded_once_per_item() {
    let e = editor();
    assert_eq!(affix_needs_fetch(&e), Some(4));
    let e = affix_after_fetch(e, 4, FetchResult::Loaded);
    assert_eq!(e.cached_item, Some(4));
    assert_eq!(affix_needs_fetch(&e), None);
    let gone = affix_after_fetch(editor(), 4, FetchResult::Missing);
    assert_eq!((gone.edit_item, gone.cached_item), (None, None));
    let failed = affix_after_fetch(AffixEditor { cached_item: Some(9), ..editor() }, 4, FetchResult::Failed);
    assert_eq!((failed.edit_item, failed.cached_item), (None, Some(9)));
}

#[test]
fn affix_picks_ask_for_changes() {
    let (_, a) = affix_editor_step(editor(), AffixEvent::PickNone(true, 1, "IncrLife1".to_string()));
    assert!(matches!(a, AffixAction::SetAffix(true, 1, ref m, RollSource::Middle) if m == "None"));
    let (_, a) = affix_editor_step(editor(), AffixEvent::PickNone(true, 1, "None".to_string()));
    assert!(matches!(a, AffixAction::Nothing));
    let (_, a) = affix_editor_step(
        editor(),
        AffixEvent::PickMod(false, 2, "None".to_string(), "ColdRes2".to_string()),
    );
    assert!(matches!(a, AffixAction::SetAffix(false, 2, ref m, RollSource::Current) if m == "ColdRes2"));
    let (_, a) = affix_editor_step(
        editor(),
        AffixEvent::PickMod(false, 2, "ColdRes2".to_string(), "ColdRes2".to_string()),
    );
    assert!(matches!(a, AffixAction::Nothing));
    let (_, a) = affix_editor_step(editor(), AffixEvent::Roll(true, 3, "Str1".to_string(), true));
    assert!(matches!(a, AffixAction::SetAffix(true, 3, ref m, RollSource::Slider) if m == "Str1"));
    let (_, a) = affix_editor_step(editor(), AffixEvent::Roll(true, 3, "Str1".to_string(), false));
    assert!(matches!(a, AffixAction::Nothing));
    let (_, a) = affix_editor_step(editor(), AffixEvent::Roll(true, 3, "None".to_string(), true));
    assert!(matches!(a, AffixAction::Nothing));
}

#[test]
fn cluster_and_custom_lines() {
    let (_, a) = affix_editor_step(
        editor(),
        AffixEvent::ClusterSkill("fire".to_string(), "cold".to_string(), 8),
    );
    assert!(matches!(a, AffixAction::SetCluster(ref k, 8) if k == "cold"));
    let (_, a) = affix_editor_step(editor(), AffixEvent::ClusterCount("fire".to_string(), 8, 8));
    assert!(matches!(a, AffixAction::Nothing));
    let (_, a) = affix_editor_step(editor(), AffixEvent::ClusterCount("fire".to_string(), 8, 10));
    assert!(matches!(a, AffixAction::SetCluster(ref k, 10) if k == "fire"));
    let (e, a) = affix_editor_step(editor(), AffixEvent::AddCustom);
    assert!(matches!(a, AffixAction::AddCustom(ref l, true) if l == "+1 to Level of Socketed Gems"));
    let e = affix_after_call(AffixEditor { cached_item: Some(4), ..e }, &a, true);
    assert!(e.custom_line.is_empty());
    assert_eq!(e.cached_item, None);
    let blank = AffixEditor { custom_line: "   ".to_string(), ..editor() };
    let (_, a) = affix_editor_step(blank, AffixEvent::AddCustom);
    assert!(matches!(a, AffixAction::Nothing));
    let (e, _) = affix_editor_step(editor(), AffixEvent::Close);
    assert_eq!((e.edit_item, e.cached_item), (None, None));
    let kept = affix_after_call(AffixEditor { cached_item: Some(4), ..editor() }, &AffixAction::SetCluster("x".to_string(), 1), false);
    assert_eq!(kept.cached_item, Some(4));
}

fn anointing() -> CraftUi {
    CraftUi { anoint_item: Some(2), anoint_slot: 5, ..CraftUi::default() }
}

#[test]
fn anoint_dialog_frames() {
    let preview = Some((2i64, 1usize, "Heartstopper".to_string()));
    let (_, p, req) = anoint_dialog_step(anointing(), preview.clone(), 2, AnointEvent::Anoint);
    assert_eq!(p, preview);
    assert_eq!(req, None);
    let (ui, _, _) = anoint_dialog_step(anointing(), None, 2, AnointEvent::PickNotable("Heartstopper".to_string()));
    assert_eq!(ui.anoint_selected.as_deref(), Some("Heartstopper"));
    let (_, _, req) = anoint_dialog_step(ui, None, 2, AnointEvent::Anoint);
    assert_eq!(req, Some((Some("Heartstopper".to_string()), 2)));
    let (_, _, req) = anoint_dialog_step(anointing(), None, 2, AnointEvent::Remove(1));
    assert_eq!(req, Some((None, 1)));
    let (ui, _, _) = anoint_dialog_step(anointing(), None, 3, AnointEvent::PickSlot(3));
    assert_eq!(ui.anoint_slot, 3);
    let (ui, p, req) = anoint_dialog_step(anointing(), preview.clone(), 2, AnointEvent::Close);
    assert_eq!((ui.anoint_item, p, req), (None, None, None));
    assert_eq!(anoint_after_call(preview.clone(), true), None);
    assert_eq!(anoint_after_call(preview.clone(), false), preview);
}

fn options(used: &[&str]) -> EnchantOptions {
    EnchantOptions {
        has_skills: true,
        skills: vec!["Arc".to_string(), "Fireball".to_string()],
        used_skills: used.iter().map(|s| s.to_string()).collect(),
    }
}

#[test]
fn enchant_dialog_frames() {
    let ui = enchant_opened(CraftUi { enchant_item: Some(7), ..CraftUi::default() }, &options(&["Fireball"]));
    assert_eq!(ui.enchant_skill.as_deref(), Some("Fireball"));
    assert!(!ui.enchant_all_skills);
    assert!(!enchant_lists_all(&ui, &options(&["Fireball"])));
    let none_used = enchant_opened(CraftUi::default(), &options(&[]));
    assert_eq!(none_used.enchant_skill.as_deref(), Some("Arc"));
    assert!(none_used.enchant_all_skills);
    let (same, _) = enchant_dialog_step(none_used, &options(&[]), EnchantEvent::ListAll(false));
    assert!(same.enchant_all_skills);

    let (ui, a) = enchant_dialog_step(ui, &options(&["Fireball"]), EnchantEvent::Enchant);
    assert!(matches!(a, EnchantAction::Nothing));
    let (ui, _) = enchant_dialog_step(ui, &options(&["Fireball"]), EnchantEvent::Select("Lab".to_string(), 2));
    let (ui, a) = enchant_dialog_step(ui, &options(&["Fireball"]), EnchantEvent::Enchant);
    assert!(matches!(a, EnchantAction::Apply(Some(ref k), ref n, 2) if k == "Fireball" && n == "Lab"));
    let (ui, _) = enchant_dialog_step(ui, &options(&["Fireball"]), EnchantEvent::PickSkill("Arc".to_string()));
    assert_eq!(ui.enchant_selection, None);
    let (_, a) = enchant_dialog_step(ui, &options(&["Fireball"]), EnchantEvent::RemoveEnchant);
    assert!(matches!(a, EnchantAction::Remove));
    let (ui, _) = enchant_dialog_step(CraftUi { enchant_item: Some(7), ..CraftUi::default() }, &options(&[]), EnchantEvent::Close);
    assert_eq!(ui.enchant_item, None);

    let mut no_skills = options(&[]);
    no_skills.has_skills = false;
    let picked = CraftUi {
        enchant_skill: Some("Arc".to_string()),
        enchant_selection: Some(("Boots".to_string(), 1)),
        ..CraftUi::default()
    };
    let (_, a) = enchant_dialog_step(picked, &no_skills, EnchantEvent::Enchant);
    assert!(matches!(a, EnchantAction::Apply(None, ref n, 1) if n == "Boots"));
}

#[test]
fn enchant_catalog_reloads_on_item_or_skill_change() {
    let cache = Some((7i64, Some("Arc".to_string())));
    assert!(!enchant_catalog_stale(&cache, 7, &Some("Arc".to_string())));
    assert!(enchant_catalog_stale(&cache, 8, &Some("Arc".to_string())));
    assert!(enchant_catalog_stale(&cache, 7, &Some("Fireball".to_string())));
    assert!(enchant_catalog_stale(&cache, 7, &None));
    assert!(enchant_catalog_stale(&None, 7, &None));
    assert!(!enchant_catalog_stale(&Some((7, None)), 7, &None));
}
