use image_host::paths::{decimal_string, dir_path, file_path};

#[test]
fn decimal_notation() {
    assert_eq!(decimal_string(0), "0");
    assert_eq!(decimal_string(7), "7");
    assert_eq!(decimal_string(10), "10");
    assert_eq!(decimal_string(42), "42");
    assert_eq!(decimal_string(1000), "1000");
    assert_eq!(decimal_string(u64::MAX), "18446744073709551615");
}

#[test]
fn decimal_matches_to_string() {
    for n in [0u64, 1, 9, 99, 100, 12345, 987654321, u64::MAX - 1] {
        assert_eq!(decimal_string(n), n.to_string());
        assert_eq!(decimal_string(n).parse::<u64>().unwrap(), n);
    }
}

#[test]
fn storage_directory() {
    assert_eq!(dir_path("avatar", 7), "/root/image/avatar/7");
    assert_eq!(dir_path("", 0), "/root/image//0");
    assert_ne!(dir_path("t", 1), dir_path("t", 10));
}

#[test]
fn stored_file() {
    assert_eq!(file_path("/root/image/avatar/7", "me.png"), "/root/image/avatar/7/me.png");
    assert!(file_path(&dir_path("goods", 12), "x.jpg").starts_with("/root/image/"));
}
