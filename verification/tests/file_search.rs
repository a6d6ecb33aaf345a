use pob_egui::file_search::FileSearchHandle;

#[test]
fn empty_search_gives_no_handle() {
    assert!(FileSearchHandle::<String>::new(Vec::new()).is_none());
}

#[test]
fn search_walks_its_results() {
    let mut h = FileSearchHandle::new(vec!["a.xml".to_string(), "b.xml".to_string()]).unwrap();
    assert_eq!(h.current(), Some(&"a.xml".to_string()));
    assert_eq!(h.position(), 0);
    assert!(h.next_file());
    assert_eq!(h.position(), 1);
    assert_eq!(h.current(), Some(&"b.xml".to_string()));
    assert!(!h.next_file());
    assert_eq!(h.current(), None);
    assert!(!h.next_file());
    assert_eq!(h.current(), None);
}
