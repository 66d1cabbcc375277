use thresher::cli::Cli;
use thresher::error::ThreshError;
use thresher::paths::{dec_string, output_parent, resolve_output_path};

#[test]
fn resolve_derives_suffix_from_input_path() {
    let r = resolve_output_path("/tmp/img/photo.png", None, 8);
    assert_eq!(r, Ok(String::from("/tmp/img/photo_p8.png")));
}

#[test]
fn resolve_explicit_output_bypasses_derivation() {
    let r = resolve_output_path("/tmp/img/photo.png", Some(String::from("/out/x.jpg")), 8);
    assert_eq!(r, Ok(String::from("/out/x.jpg")));
}

#[test]
fn resolve_explicit_output_needs_no_input_components() {
    let r = resolve_output_path("noext", Some(String::from("anywhere")), 3);
    assert_eq!(r, Ok(String::from("anywhere")));
}

#[test]
fn resolve_no_extension_fails() {
    let r = resolve_output_path("noext", None, 8);
    assert_eq!(r, Err(ThreshError::InvalidPath));
}

#[test]
fn resolve_no_extension_with_parent_fails() {
    let r = resolve_output_path("/tmp/noext", None, 8);
    assert_eq!(r, Err(ThreshError::InvalidPath));
}

#[test]
fn resolve_leading_dot_name_has_no_extension() {
    let r = resolve_output_path("/home/user/.bashrc", None, 8);
    assert_eq!(r, Err(ThreshError::InvalidPath));
}

#[test]
fn resolve_no_parent_fails() {
    let r = resolve_output_path("photo.png", None, 8);
    assert_eq!(r, Err(ThreshError::InvalidPath));
}

#[test]
fn resolve_keeps_only_last_extension() {
    let r = resolve_output_path("/a/b.tar.gz", None, 7);
    assert_eq!(r, Ok(String::from("/a/b.tar_p7.gz")));
}

#[test]
fn resolve_root_parent_is_kept() {
    let r = resolve_output_path("/photo.png", None, 8);
    assert_eq!(r, Ok(String::from("/photo_p8.png")));
}

#[test]
fn resolve_multi_digit_sizes() {
    let r = resolve_output_path("/tmp/img/photo.png", None, 255);
    assert_eq!(r, Ok(String::from("/tmp/img/photo_p255.png")));
    let r = resolve_output_path("/tmp/img/photo.png", None, 40);
    assert_eq!(r, Ok(String::from("/tmp/img/photo_p40.png")));
    let r = resolve_output_path("/tmp/img/photo.png", None, 0);
    assert_eq!(r, Ok(String::from("/tmp/img/photo_p0.png")));
}

#[test]
fn dec_string_renders_decimal() {
    assert_eq!(dec_string(0), "0");
    assert_eq!(dec_string(9), "9");
    assert_eq!(dec_string(10), "10");
    assert_eq!(dec_string(99), "99");
    assert_eq!(dec_string(100), "100");
    assert_eq!(dec_string(207), "207");
    assert_eq!(dec_string(255), "255");
}

#[test]
fn output_parent_is_text_before_last_separator() {
    assert_eq!(output_parent("/out/x.jpg"), Ok(String::from("/out")));
    assert_eq!(output_parent("/tmp/img/photo_p8.png"), Ok(String::from("/tmp/img")));
    assert_eq!(output_parent("/x.jpg"), Ok(String::from("")));
}

#[test]
fn output_parent_without_separator_fails() {
    assert_eq!(output_parent("x.jpg"), Err(ThreshError::InvalidPath));
}

#[test]
fn cli_resolves_like_the_free_function() {
    let cli = Cli {
        path: String::from("/tmp/img/photo.png"),
        size: 8,
        bw: false,
        no_resize: false,
        output: None,
    };
    assert_eq!(cli.resolve_output_path(), Ok(String::from("/tmp/img/photo_p8.png")));
    let cli = Cli {
        path: String::from("/tmp/img/photo.png"),
        size: 8,
        bw: true,
        no_resize: true,
        output: Some(String::from("/out/x.jpg")),
    };
    assert_eq!(cli.resolve_output_path(), Ok(String::from("/out/x.jpg")));
}

#[test]
fn error_messages_name_the_failure() {
    assert_eq!(ThreshError::InvalidPath.message(), "invalid path");
    assert_eq!(ThreshError::ImageDecode.message(), "could not decode image");
    assert_eq!(ThreshError::ImageEncode.message(), "could not encode image");
    assert_eq!(
        ThreshError::DirectoryCreation.message(),
        "could not create output directory"
    );
}
