use sd_backend::filename::{extension, has_extension};

#[test]
fn extension_of_plain_png() {
    assert_eq!(extension("grid-0034.png"), "png");
}

#[test]
fn extension_of_double_suffix() {
    assert_eq!(extension("archive.tar.gz"), "gz");
}

#[test]
fn extension_of_hidden_file_is_empty() {
    // a leading dot alone does not start an extension, as with Path::extension
    assert_eq!(extension(".png"), "");
}

#[test]
fn extension_of_hidden_file_with_suffix() {
    assert_eq!(extension(".config.png"), "png");
}

#[test]
fn extension_of_dotless_name_is_empty() {
    assert_eq!(extension("png"), "");
}

#[test]
fn extension_of_trailing_dot_is_empty_string() {
    assert_eq!(extension("foo."), "");
}

#[test]
fn extension_of_empty_name() {
    assert_eq!(extension(""), "");
}

#[test]
fn has_extension_matches() {
    assert!(has_extension("a.png", "png"));
    assert!(!has_extension("a.jpg", "png"));
    assert!(!has_extension("png", "png"));
    assert!(!has_extension(".png", "png"));
    assert!(!has_extension("a.PNG", "png"));
}
