use image_host::naming::{file_extension, is_image_file_name};

#[test]
fn image_extensions_are_accepted() {
    assert!(is_image_file_name("cat.jpg"));
    assert!(is_image_file_name("cat.jpeg"));
    assert!(is_image_file_name("cat.png"));
    assert!(is_image_file_name("cat.gif"));
    assert!(is_image_file_name("cat.webp"));
}

#[test]
fn other_names_are_refused() {
    assert!(!is_image_file_name("cat.PNG"));
    assert!(!is_image_file_name("notes.txt"));
    assert!(!is_image_file_name("archive.png.zip"));
    assert!(!is_image_file_name("cat.png."));
    assert!(!is_image_file_name(""));
    assert!(!is_image_file_name("cat"));
}

#[test]
fn bare_extension_is_its_own_extension() {
    assert!(is_image_file_name("png"));
    assert_eq!(file_extension("png"), "png");
}

#[test]
fn extension_is_after_last_dot() {
    assert_eq!(file_extension("a.b.c"), "c");
    assert_eq!(file_extension(".hidden"), "hidden");
    assert_eq!(file_extension("trailing."), "");
    assert_eq!(file_extension("照片.webp"), "webp");
    assert!(is_image_file_name("照片.webp"));
}

#[test]
fn stem_does_not_matter_for_dotted_names() {
    for stem in ["", "x", "a.b", "..", "jpg"] {
        assert!(is_image_file_name(&format!("{}.gif", stem)));
        assert!(!is_image_file_name(&format!("{}.bmp", stem)));
    }
}
