use tinify_batch::bytes::{contains_exec, ends_with_exec};
use tinify_batch::naming::{derive_name, double_marked, is_png};

fn b(s: &str) -> Vec<u8> {
    s.as_bytes().to_vec()
}

fn s(v: Vec<u8>) -> String {
    String::from_utf8(v).unwrap()
}

#[test]
fn png_gets_pattern_before_extension() {
    let out = derive_name(&b("photo.png"), &b("_tiny"));
    assert_eq!(s(out), "photo_tiny.png");
}

#[test]
fn jpg_gets_pattern_before_extension() {
    let out = derive_name(&b("photo.jpg"), &b("_tiny"));
    assert_eq!(s(out), "photo_tiny.jpg");
}

#[test]
fn other_extension_left_unchanged() {
    let out = derive_name(&b("photo.gif"), &b("_tiny"));
    assert_eq!(s(out), "photo.gif");
}

#[test]
fn only_final_extension_is_recognized() {
    // A recognized extension earlier in the path is left alone.
    let out = derive_name(&b("a.png/b.png"), &b("_t"));
    assert_eq!(s(out), "a.png/b_t.png");
}

#[test]
fn inner_extension_is_not_touched() {
    let out = derive_name(&b("a.jpg.png"), &b("_t"));
    assert_eq!(s(out), "a.jpg_t.png");
}

#[test]
fn unrecognized_final_extension_unchanged() {
    // The final extension is `pngy`, not `.png`: no substitution.
    let out = derive_name(&b("x.pngy"), &b("_t"));
    assert_eq!(s(out), "x.pngy");
}

#[test]
fn is_png_checks_suffix() {
    assert!(is_png(&b("photo_tiny.png")));
    assert!(!is_png(&b("photo_tiny.jpg")));
    assert!(!is_png(&b("png")));
    assert!(!is_png(&b("")));
}

#[test]
fn double_marker_found_adjacent_only() {
    assert!(double_marked(&b("photo_tiny_tiny.png"), &b("_tiny")));
    assert!(!double_marked(&b("photo_tiny.png"), &b("_tiny")));
    assert!(!double_marked(&b("photo_tiny.x_tiny.png"), &b("_tiny")));
}

#[test]
fn contains_empty_pattern_everywhere() {
    assert!(contains_exec(&b("abc"), &b("")));
    assert!(contains_exec(&b(""), &b("")));
    assert!(!contains_exec(&b(""), &b("a")));
}

#[test]
fn ends_with_basics() {
    assert!(ends_with_exec(&b("photo.png"), &b(".png")));
    assert!(!ends_with_exec(&b("photo.png"), &b(".jpg")));
    assert!(ends_with_exec(&b("x"), &b("")));
}
