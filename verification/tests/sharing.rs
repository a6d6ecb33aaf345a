use pob_egui::url::resolve_download_url;
use pob_egui::share::{
    escape_script_string, export_site, export_site_choice, failure_excerpt, is_share_link,
    share_link, upload_body, EXPORT_SITE_COUNT,
};

#[test]
fn export_sites_in_list_order() {
    assert_eq!(EXPORT_SITE_COUNT, 5);
    let maxroll = export_site(0);
    assert_eq!(maxroll.label, "Maxroll");
    assert_eq!(maxroll.post_url, "https://maxroll.gg/poe/api/pob");
    assert_eq!(maxroll.post_fields, "pobCode=");
    assert_eq!(maxroll.code_out, "https://maxroll.gg/poe/pob/");
    assert_eq!(export_site(3).label, "PoeNinja");
    assert_eq!(export_site(4).code_out, "");
}

#[test]
fn export_site_choice_is_clamped() {
    assert_eq!(export_site_choice(0), 0);
    assert_eq!(export_site_choice(4), 4);
    assert_eq!(export_site_choice(17), 4);
}

#[test]
fn upload_body_and_link() {
    assert_eq!(upload_body("eNr", 0), "pobCode=eNr");
    assert_eq!(upload_body("eNr", 1), "eNr");
    assert_eq!(upload_body("eNr", 3), "code=eNr");
    assert_eq!(share_link(1, " abc123\n"), "https://pob.codes/b/abc123");
    assert_eq!(share_link(2, "xyz"), "https://pobb.in/xyz");
    assert_eq!(share_link(3, "https://poe.ninja/pob/q \n"), "https://poe.ninja/pob/q");
}

#[test]
fn failure_excerpt_keeps_two_hundred_characters() {
    assert_eq!(failure_excerpt("short"), "short");
    let long: String = std::iter::repeat('é').take(250).collect();
    let cut: String = std::iter::repeat('é').take(200).collect();
    assert_eq!(failure_excerpt(&long), cut);
}

#[test]
fn share_links_are_recognised() {
    assert!(is_share_link("  https://pobb.in/x"));
    assert!(is_share_link("http"));
    assert!(!is_share_link("eNrtfWl3"));
    assert!(!is_share_link(""));
}

#[test]
fn script_string_escaping() {
    assert_eq!(escape_script_string(r#"My "Best" \ Build"#), r#"My \"Best\" \\ Build"#);
    assert_eq!(escape_script_string("plain"), "plain");
    assert_eq!(escape_script_string(""), "");
}

/// Reads the body of a double-quoted script string back.
fn unquote(s: &str) -> String {
    let mut out = String::new();
    let mut chars = s.chars().peekable();
    while let Some(c) = chars.next() {
        if c == '\\' && matches!(chars.peek(), Some('\\') | Some('"')) {
            out.push(chars.next().unwrap());
        } else {
            out.push(c);
        }
    }
    out
}

#[test]
fn quoted_names_read_back() {
    for name in [r#"a\"b"#, r#"\\"#, r#"""#, "plain", "trailing\\", "é\"\\n"] {
        assert_eq!(unquote(&escape_script_string(name)), name);
    }
}

#[test]
fn shared_links_resolve_back() {
    assert_eq!(
        resolve_download_url(&share_link(0, "AbC123\n")).unwrap(),
        "https://maxroll.gg/poe/api/pob/AbC123"
    );
    assert_eq!(
        resolve_download_url(&share_link(1, " xyz ")).unwrap(),
        "https://api.pob.codes/xyz/raw"
    );
    assert_eq!(resolve_download_url(&share_link(2, "k9")).unwrap(), "https://pobb.in/pob/k9");
}
