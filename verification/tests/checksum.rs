use figshare_rs::checksum::Checksum;

#[test]
fn checksum_of_hello_matches_md5() {
    let mut c = Checksum::new();
    c.update(b"hel");
    c.update(b"lo");
    assert_eq!(c.size(), 5);
    let (md5, size) = c.finish();
    assert_eq!(size, 5);
    assert_eq!(md5, "5d41402abc4b2a76b9719d911017c592");
}

#[test]
fn checksum_of_nothing() {
    let (md5, size) = Checksum::new().finish();
    assert_eq!(size, 0);
    assert_eq!(md5, "d41d8cd98f00b204e9800998ecf8427e");
}
