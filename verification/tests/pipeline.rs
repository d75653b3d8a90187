use tinify_batch::pipeline::{
    output_path, plan, plan_batch, resolve_size, Action, BatchAction, Job,
};

fn b(s: &str) -> Vec<u8> {
    s.as_bytes().to_vec()
}

fn job(source: &str, output: Option<&str>, pattern: &str, resize_to: Option<u32>) -> Job {
    Job {
        source: b(source),
        output_override: output.map(b),
        pattern: b(pattern),
        resize_to,
    }
}

#[test]
fn output_path_from_source() {
    let j = job("photo.png", None, "_tiny", Some(200));
    assert_eq!(String::from_utf8(output_path(&j)).unwrap(), "photo_tiny.png");
}

#[test]
fn output_path_from_override() {
    let j = job("photo.png", Some("out.png"), "_tiny", Some(200));
    assert_eq!(String::from_utf8(output_path(&j)).unwrap(), "out_tiny.png");
}

#[test]
fn existing_output_is_skipped() {
    let j = job("photo.png", None, "_tiny", Some(200));
    assert_eq!(plan(&j, true), Action::SkipOutputExists);
}

#[test]
fn double_marked_output_is_skipped_first() {
    // The derived output is photo_tiny_tiny.png, which carries the marker:
    // skipped whether or not anything exists on disk.
    let j = job("photo_tiny.png", None, "_tiny", Some(200));
    assert_eq!(plan(&j, false), Action::SkipAlreadyProcessed);
    assert_eq!(plan(&j, true), Action::SkipAlreadyProcessed);
}

#[test]
fn png_with_size_is_transformed() {
    let j = job("photo.png", None, "_tiny", Some(200));
    assert_eq!(plan(&j, false), Action::TransformThenCompress { size: 200 });
}

#[test]
fn jpg_is_compressed_unchanged() {
    let j = job("photo.jpg", None, "_tiny", Some(200));
    assert_eq!(plan(&j, false), Action::CompressOriginal);
}

#[test]
fn no_size_is_never_transformed() {
    let j = job("photo.png", None, "_tiny", None);
    assert_eq!(plan(&j, false), Action::CompressOriginal);
}

#[test]
fn rerun_on_own_output_is_skipped() {
    // A finished output re-encountered by a later run derives a
    // double-marked path and is left alone, for png and jpg sources.
    let first = tinify_batch::naming::derive_name(&b("photo.jpg"), &b("_tiny"));
    assert_eq!(first, b("photo_tiny.jpg"));
    let j = Job {
        source: first,
        output_override: None,
        pattern: b("_tiny"),
        resize_to: Some(200),
    };
    assert_eq!(plan(&j, false), Action::SkipAlreadyProcessed);
}

#[test]
fn second_pass_with_existing_output_writes_nothing() {
    let j = job("photo.png", None, "_tiny", Some(200));
    assert_eq!(plan(&j, false), Action::TransformThenCompress { size: 200 });
    assert_eq!(plan(&j, true), Action::SkipOutputExists);
}

#[test]
fn tinify_only_resolves_to_no_size() {
    assert_eq!(resolve_size(true, 200), None);
    assert_eq!(resolve_size(false, 200), Some(200));
}

#[test]
fn missing_input_folder_bootstraps_and_stops() {
    assert_eq!(plan_batch(false), BatchAction::CreateInputFolderAndStop);
    assert_eq!(plan_batch(true), BatchAction::ProcessEntries);
}
