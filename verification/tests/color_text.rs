use pob_egui::color_codes::{hide_color_codes, reveal_color_codes, strip_escapes};
use pob_egui::colors::{parse_pob_colors, plain_status, Rgb};

#[test]
fn strip_escapes_removes_digit_and_hex_codes() {
    assert_eq!(strip_escapes("^1Red ^xFF0000text^7"), "Red text");
    assert_eq!(strip_escapes("plain"), "plain");
    assert_eq!(strip_escapes(""), "");
}

#[test]
fn strip_escapes_keeps_what_is_no_code() {
    // Too short for a hex code.
    assert_eq!(strip_escapes("^x12"), "^x12");
    // Not hexadecimal.
    assert_eq!(strip_escapes("^xGG0000a"), "^xGG0000a");
    // A caret at the end.
    assert_eq!(strip_escapes("a^"), "a^");
    assert_eq!(strip_escapes("^_7"), "^_7");
}

#[test]
fn strip_escapes_keeps_other_characters() {
    assert_eq!(strip_escapes("é"), "é");
    assert_eq!(strip_escapes("héllo^2"), "héllo");
    assert_eq!(strip_escapes("^1Ünïcödé ^xFF00AA€"), "Ünïcödé €");
}

#[test]
fn reveal_and_hide_color_codes() {
    assert_eq!(reveal_color_codes("^7a^xFFAA00b"), "^_7a^_xFFAA00b");
    assert_eq!(hide_color_codes("^_7a^_xFFAA00b"), "^7a^xFFAA00b");
    // Incomplete codes are left as they are.
    assert_eq!(reveal_color_codes("^x12"), "^x12");
    assert_eq!(hide_color_codes("^_x12"), "^_x12");
    assert_eq!(hide_color_codes("^_"), "^_");
}

#[test]
fn hiding_undoes_revealing() {
    for text in ["^1Fire ^xB97123Cold ^7", "no codes", "", "^", "^9^0^x000000", "é", "^1é^x00aa00ü"] {
        assert_eq!(hide_color_codes(&reveal_color_codes(text)), text);
    }
}

#[test]
fn hiding_does_not_undo_revealing_an_existing_marker() {
    // Text that already holds `^_` is not given back.
    assert_eq!(hide_color_codes(&reveal_color_codes("a^_7")), "a^7");
}

#[test]
fn parse_pob_colors_splits_runs() {
    let white = Rgb::new(255, 255, 255);
    let grey = Rgb::new(200, 200, 200);
    assert_eq!(
        parse_pob_colors("^1Red^7White", grey),
        vec![(Rgb::new(255, 0, 0), "Red".to_string()), (white, "White".to_string())]
    );
    assert_eq!(parse_pob_colors("plain", grey), vec![(grey, "plain".to_string())]);
    assert_eq!(parse_pob_colors("", grey), vec![]);
}

#[test]
fn parse_pob_colors_drops_codes_without_text() {
    let grey = Rgb::new(200, 200, 200);
    assert_eq!(parse_pob_colors("^1^2x", grey), vec![(Rgb::new(0, 255, 0), "x".to_string())]);
    assert_eq!(parse_pob_colors("a^3", grey), vec![(grey, "a".to_string())]);
}

#[test]
fn parse_pob_colors_hex_codes() {
    let grey = Rgb::new(200, 200, 200);
    assert_eq!(
        parse_pob_colors("^xff8000Orange", grey),
        vec![(Rgb::new(255, 128, 0), "Orange".to_string())]
    );
    assert_eq!(parse_pob_colors("^X00FF00g", grey), vec![(Rgb::new(0, 255, 0), "g".to_string())]);
    // Only hexadecimal digits make a colour.
    assert_eq!(parse_pob_colors("^x+f+f+fz", grey), vec![(grey, "^x+f+f+fz".to_string())]);
    // Not a colour: the caret stays in the text.
    assert_eq!(parse_pob_colors("^xZZ0000a", grey), vec![(grey, "^xZZ0000a".to_string())]);
    assert_eq!(parse_pob_colors("^", grey), vec![(grey, "^".to_string())]);
}

#[test]
fn parse_pob_colors_palette() {
    let grey = Rgb::new(1, 2, 3);
    let expected = [
        Rgb::new(0, 0, 0),
        Rgb::new(255, 0, 0),
        Rgb::new(0, 255, 0),
        Rgb::new(0, 0, 255),
        Rgb::new(255, 255, 0),
        Rgb::new(255, 0, 255),
        Rgb::new(0, 255, 255),
        Rgb::new(255, 255, 255),
        Rgb::new(160, 160, 160),
        Rgb::new(96, 96, 96),
    ];
    for (d, colour) in expected.iter().enumerate() {
        let text = format!("^{d}t");
        assert_eq!(parse_pob_colors(&text, grey), vec![(*colour, "t".to_string())]);
    }
}

#[test]
fn parse_pob_colors_runs_are_never_empty() {
    let grey = Rgb::new(200, 200, 200);
    for text in ["^1^2^3", "^7a^7^7b^x000000", "x^1", "^xFFFFFF"] {
        for (_, run) in parse_pob_colors(text, grey) {
            assert!(!run.is_empty());
        }
    }
}

#[test]
fn hex_codes_need_six_hex_digits() {
    let white = Rgb::new(255, 255, 255);
    // A `^x` followed by anything but six hexadecimal digits stays text.
    assert_eq!(parse_pob_colors("^x0é0000", white), vec![(white, "^x0é0000".to_string())]);
    assert_eq!(parse_pob_colors("^x1é2345z", white), vec![(white, "^x1é2345z".to_string())]);
    assert_eq!(
        parse_pob_colors("é^xFF0000ü", white),
        vec![(white, "é".to_string()), (Rgb::new(255, 0, 0), "ü".to_string())]
    );
    assert_eq!(plain_status("^x0é0000 Error"), ("^x0é0000 Error".to_string(), true));
}

#[test]
fn plain_status_reports_errors() {
    assert_eq!(plain_status("^1Error: ^7bad code"), ("Error: bad code".to_string(), true));
    assert_eq!(plain_status("^2Imported"), ("Imported".to_string(), false));
    assert_eq!(plain_status(""), ("".to_string(), false));
}

#[test]
fn colour_runs_read_like_strip_escapes() {
    let grey = Rgb::new(200, 200, 200);
    for text in ["^1Red ^xFF0000text^7", "a^", "^x12", "^xGG0000a", "^9^0x^xabcdefY", "plain", "^x+f+f+f", "é^1ü^x0é0000"] {
        let plain: String = parse_pob_colors(text, grey).into_iter().map(|(_, t)| t).collect();
        assert_eq!(plain, strip_escapes(text));
    }
    // Where the readings differ: an upper-case `^X`.
    assert_eq!(strip_escapes("^X000000a"), "^X000000a");
    assert_eq!(plain_status("^X000000a").0, "a");
    assert_eq!(strip_escapes("^x+f+f+fz"), "^x+f+f+fz");
    assert_eq!(plain_status("^x+f+f+fz").0, "^x+f+f+fz");
}
