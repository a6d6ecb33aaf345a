use pob_egui::notes::{char_index_to_byte, NotesPanel};

#[test]
fn char_index_to_byte_offsets() {
    assert_eq!(char_index_to_byte("abc", 0), 0);
    assert_eq!(char_index_to_byte("abc", 2), 2);
    assert_eq!(char_index_to_byte("abc", 3), 3);
    assert_eq!(char_index_to_byte("abc", 9), 3);
    assert_eq!(char_index_to_byte("héllo", 2), 3);
    assert_eq!(char_index_to_byte("a€b", 2), 4);
    assert_eq!(char_index_to_byte("😀x", 1), 4);
    assert_eq!(char_index_to_byte("", 0), 0);
}

#[test]
fn new_panel_hides_codes() {
    let p = NotesPanel::new("^1Red".to_string());
    assert_eq!(p.buffer(), "^1Red");
    assert!(!p.shows_color_codes());
    assert_eq!(p.text_to_store(), "^1Red");
    assert!(p.selection_fits());
}

#[test]
fn toggling_shows_and_hides_codes() {
    let mut p = NotesPanel::new("^1Red ^xFF0000x".to_string());
    p.toggle_color_codes();
    assert!(p.shows_color_codes());
    assert_eq!(p.buffer(), "^_1Red ^_xFF0000x");
    // What is saved keeps the real codes.
    assert_eq!(p.text_to_store(), "^1Red ^xFF0000x");
    p.toggle_color_codes();
    assert!(!p.shows_color_codes());
    assert_eq!(p.buffer(), "^1Red ^xFF0000x");
}

#[test]
fn colour_inserted_at_the_end_without_a_caret() {
    let mut p = NotesPanel::new("abc".to_string());
    p.apply_color("^x8888FF");
    assert_eq!(p.buffer(), "abc^x8888FF");
}

#[test]
fn colour_inserted_at_the_caret() {
    let mut p = NotesPanel::new("héllo".to_string());
    p.set_selection(2, 2);
    assert!(p.selection_fits());
    p.apply_color("^7");
    assert_eq!(p.buffer(), "hé^7llo");
}

#[test]
fn colour_wraps_a_selection() {
    let mut p = NotesPanel::new("one two three".to_string());
    // Selection given backwards, as the editor may report it.
    p.set_selection(7, 4);
    p.apply_color("^xFFFF77");
    assert_eq!(p.buffer(), "one ^xFFFF77two^7 three");
}

#[test]
fn colour_wraps_in_shown_form() {
    let mut p = NotesPanel::new("ab".to_string());
    p.toggle_color_codes();
    p.set_selection(0, 1);
    p.apply_color("^xD02090");
    assert_eq!(p.buffer(), "^_xD02090a^_7b");
    assert_eq!(p.text_to_store(), "^xD02090a^7b");
}

#[test]
fn caret_past_the_text_is_clamped() {
    let mut p = NotesPanel::new("abcdef".to_string());
    p.set_selection(5, 5);
    p.set_buffer("ab".to_string());
    assert!(p.selection_fits());
    p.apply_color("^7");
    assert_eq!(p.buffer(), "ab^7");
}

#[test]
fn stale_selection_inside_a_character_does_not_fit() {
    let mut p = NotesPanel::new("abc".to_string());
    p.set_selection(0, 1);
    p.set_buffer("é".to_string());
    assert!(!p.selection_fits());
}

#[test]
fn stored_text_does_not_depend_on_the_display() {
    for text in ["^1Fire ^xB97123x", "plain", "", "^9", "é^1ü"] {
        let mut p = NotesPanel::new(text.to_string());
        let before = p.text_to_store();
        p.toggle_color_codes();
        assert_eq!(p.text_to_store(), before);
        p.toggle_color_codes();
        assert_eq!(p.text_to_store(), before);
    }
}
