use pob_egui::colors::Rgb;
use pob_egui::tabs::{
    after_craft, craft_dialog_step, craft_rarity_names, filter_anoint_notables, opens_affix_editor,
    preview_cache_fresh, AnointNotable, BuildTab, CraftAction, CraftEvent, CraftUi, NewCraftDialog,
    CRAFT_RARITY_COUNT,
};
use pob_egui::theme::Theme;

#[test]
fn build_tabs_in_button_order() {
    let labels: Vec<&str> = BuildTab::all().iter().map(|t| t.label()).collect();
    assert_eq!(labels, vec!["Tree", "Skills", "Items", "Config", "Import/Export"]);
    assert_eq!(BuildTab::all()[4], BuildTab::Import);
}

#[test]
fn craft_rarities() {
    assert_eq!(CRAFT_RARITY_COUNT, 3);
    assert_eq!(craft_rarity_names(0), ("Normal", "NORMAL"));
    assert_eq!(craft_rarity_names(1), ("Magic", "MAGIC"));
    assert_eq!(craft_rarity_names(2), ("Rare", "RARE"));
}

#[test]
fn craft_ui_starts_closed() {
    let ui = CraftUi::default();
    assert!(ui.new_dialog.is_none());
    assert!(ui.anoint_item.is_none());
    assert_eq!(ui.anoint_slot, 0);
    assert!(ui.custom_line.is_empty());
    assert!(!ui.enchant_all_skills);
}

#[test]
fn anoint_slot_is_kept_in_range() {
    let mut ui = CraftUi::default();
    assert_eq!(ui.anoint_slot_for(3), 1);
    ui.anoint_slot = 2;
    assert_eq!(ui.anoint_slot_for(3), 2);
    ui.anoint_slot = 9;
    assert_eq!(ui.anoint_slot_for(3), 3);
    assert_eq!(ui.anoint_slot_for(0), 1);
}

#[test]
fn theme_colours() {
    assert_eq!(Theme::text_dim(), Rgb::new(100, 100, 100));
    assert_eq!(Theme::error(), Rgb::new(255, 80, 80));
    assert_eq!(Theme::mod_text(), Rgb::new(136, 136, 255));
    assert_eq!(Theme::stat_lightning(), Rgb::new(255, 215, 0));
    assert_eq!(Theme::stat_dps(), Rgb::new(255, 200, 50));
}

#[test]
fn craft_dialog_flow() {
    let types = vec!["Ring".to_string(), "Amulet".to_string()];
    let mut d = NewCraftDialog::new(types, vec!["Iron Ring".to_string(), "Coral Ring".to_string()]);
    assert_eq!(d.rarity_idx, 2);
    assert_eq!((d.type_idx, d.base_idx), (0, 0));
    d.base_idx = 1;
    d.title = "  Doom Loop ".to_string();
    assert_eq!(
        d.craft_request(),
        ("RARE", "Ring".to_string(), 2, "Doom Loop".to_string())
    );
    d.select_type(1, vec!["Jade Amulet".to_string()]);
    assert_eq!((d.type_idx, d.base_idx), (1, 0));
    assert_eq!(d.bases, vec!["Jade Amulet".to_string()]);
    d.rarity_idx = 0;
    assert_eq!(d.craft_request(), ("NORMAL", "Amulet".to_string(), 1, "Doom Loop".to_string()));
}

#[test]
fn affix_editor_opens_for_magic_and_rare() {
    assert!(!opens_affix_editor("NORMAL"));
    assert!(opens_affix_editor("MAGIC"));
    assert!(opens_affix_editor("RARE"));
}

fn dialog() -> NewCraftDialog {
    let mut d = NewCraftDialog::new(
        vec!["Ring".to_string(), "Amulet".to_string()],
        vec!["Iron Ring".to_string(), "Gold Ring".to_string()],
    );
    d.title = "  Doom Loop ".to_string();
    d
}

#[test]
fn craft_dialog_frames() {
    let (d, a) = craft_dialog_step(dialog(), CraftEvent::Rarity(1));
    assert_eq!(d.unwrap().rarity_idx, 1);
    assert!(matches!(a, CraftAction::Nothing));

    let (d, a) = craft_dialog_step(dialog(), CraftEvent::BaseType(1));
    assert_eq!(d.unwrap().type_idx, 0);
    assert!(matches!(a, CraftAction::LoadBases(1)));
    let (_, a) = craft_dialog_step(dialog(), CraftEvent::BaseType(0));
    assert!(matches!(a, CraftAction::Nothing));
    let (_, a) = craft_dialog_step(dialog(), CraftEvent::BaseType(7));
    assert!(matches!(a, CraftAction::Nothing));

    let (d, _) = craft_dialog_step(dialog(), CraftEvent::Base(1));
    let (d, a) = craft_dialog_step(d.unwrap(), CraftEvent::Create);
    assert!(d.is_some());
    match a {
        CraftAction::Craft(rarity, base_type, base, name) => {
            assert_eq!(rarity, "RARE");
            assert_eq!(base_type, "Ring");
            assert_eq!(base, 2);
            assert_eq!(name, "Doom Loop");
        }
        _ => panic!("expected a craft"),
    }

    let (d, a) = craft_dialog_step(dialog(), CraftEvent::Cancel);
    assert!(d.is_none());
    assert!(matches!(a, CraftAction::Nothing));

    let empty = NewCraftDialog::new(vec!["Ring".to_string()], Vec::new());
    let (d, a) = craft_dialog_step(empty, CraftEvent::Create);
    assert!(d.is_some());
    assert!(matches!(a, CraftAction::Nothing));
}

#[test]
fn crafted_items_open_the_affix_editor_unless_normal() {
    assert_eq!(after_craft(Some(7), "MAGIC"), (true, Some(7)));
    assert_eq!(after_craft(Some(7), "NORMAL"), (true, None));
    assert_eq!(after_craft(None, "RARE"), (false, None));
}

fn notable(name: &str, stats: &[&str]) -> AnointNotable {
    AnointNotable { name: name.to_string(), stats: stats.iter().map(|s| s.to_string()).collect() }
}

#[test]
fn anoint_search_looks_in_names_and_stats() {
    let notables = vec![
        notable("Whispers of Doom", &["You can apply an additional Curse"]),
        notable("Heartstopper", &["+10% to maximum Life"]),
    ];
    assert_eq!(filter_anoint_notables(&notables, "  CURSE "), vec![0]);
    assert_eq!(filter_anoint_notables(&notables, "heart"), vec![1]);
    assert_eq!(filter_anoint_notables(&notables, ""), vec![0, 1]);
    assert_eq!(filter_anoint_notables(&notables, "   "), vec![0, 1]);
    assert_eq!(filter_anoint_notables(&notables, "mana"), Vec::<usize>::new());
}

#[test]
fn anoint_preview_cache_matches_item_slot_and_notable() {
    let cache = Some((3i64, 1usize, "Heartstopper".to_string()));
    assert!(preview_cache_fresh(&cache, 3, 1, "Heartstopper"));
    assert!(!preview_cache_fresh(&cache, 3, 2, "Heartstopper"));
    assert!(!preview_cache_fresh(&cache, 4, 1, "Heartstopper"));
    assert!(!preview_cache_fresh(&cache, 3, 1, "Whispers of Doom"));
    assert!(!preview_cache_fresh(&None, 3, 1, "Heartstopper"));
}
