use pob_egui::compression::{deflate, inflate};

#[test]
fn inflate_gives_back_what_deflate_made() {
    for data in [&b""[..], &b"hello"[..], &b"<PathOfBuilding><Build level=\"90\"/></PathOfBuilding>"[..]] {
        let packed = deflate(data).unwrap();
        assert_ne!(packed, data.to_vec());
        assert_eq!(inflate(&packed).unwrap(), data.to_vec());
    }
}

#[test]
fn deflate_writes_a_zlib_stream() {
    let packed = deflate(b"abc").unwrap();
    // zlib header for the default level.
    assert_eq!(packed[0], 0x78);
    assert_eq!(packed[1], 0x9c);
}

#[test]
fn inflate_rejects_what_is_not_zlib() {
    assert_eq!(inflate(b"not zlib data"), None);
}

#[test]
fn deflate_succeeds_and_round_trips() {
    let data: Vec<u8> = (0..=255u8).cycle().take(5000).collect();
    let packed = deflate(&data).expect("compression into memory succeeds");
    assert_eq!(inflate(&packed), Some(data));
}
