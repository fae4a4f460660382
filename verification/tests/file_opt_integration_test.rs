use file_opt::errors::{
    EqualityError, ExtensionError, LengthError, PipelineError, UsageError,
};
use file_opt::extension::check_file_extension;
use file_opt::flat_map::KeyValueMap;
use file_opt::json::parse_flat_map;
use file_opt::pipeline::{validate_contents, validate_inputs, validate_usage};
use file_opt::validate::{check_files_equal, check_key_length};

fn parse_all(texts: &[&str]) -> Vec<KeyValueMap> {
    let mut maps = Vec::new();
    for text in texts {
        maps.push(parse_flat_map(&text.as_bytes().to_vec()).unwrap());
    }
    maps
}

#[test]
fn test1() {
    assert_eq!(1, 1);
}

#[test]
fn test_check_files_same_key_length() {
    let files = vec![String::from("test1.json"), String::from("test2.arb")];
    assert!(check_file_extension(&files).is_ok());

    let file_vec = parse_all(&[
        "{\"key1\": \"value1\", \"key2\": \"value2\"}",
        "{\"key1\": \"value1\", \"key2\": \"value2\"}",
    ]);

    assert!(check_key_length(&file_vec).is_ok());
}

#[test]
fn test_check_files_different_key_length() {
    let files = vec![String::from("test1.json"), String::from("test2.arb")];
    assert!(check_file_extension(&files).is_ok());

    let file_vec = parse_all(&[
        "{\"key1\": \"value1\", \"key2\": \"value2\"}",
        "{\"key1\": \"value1\"}",
    ]);

    assert!(check_key_length(&file_vec).is_err());
}

#[test]
fn test_correct_app_flow() {
    let files = vec![String::from("test1.json"), String::from("test2.arb")];
    assert!(validate_inputs(&files).is_ok());

    let file_vec = parse_all(&[
        "{\"key1\": \"value1\", \"key2\": \"value2\"}",
        "{\"key1\": \"value1\", \"key2\": \"value2\"}",
    ]);

    assert!(check_key_length(&file_vec).is_ok());
    assert!(check_files_equal(file_vec).is_ok());
}

#[test]
fn test_wrong_app_flow() {
    let files = vec![String::from("test1.json"), String::from("test2.arb")];
    assert!(validate_inputs(&files).is_ok());

    let file_vec = parse_all(&[
        "{\"key1\": \"value1\", \"key2\": \"value2\"}",
        "{\"key3\": \"value1\", \"key2\": \"value2\"}",
    ]);

    assert!(check_key_length(&file_vec).is_ok());
    assert!(check_files_equal(file_vec).is_err());
}

#[test]
fn test_pipeline_success() {
    let maps = parse_all(&[
        "{\"key1\":\"value1\",\"key2\":\"value2\"}",
        "{\"key1\":\"value1\",\"key2\":\"value2\"}",
    ]);
    assert!(validate_contents(maps).is_ok());
}

#[test]
fn test_pipeline_length_before_equality() {
    let maps = parse_all(&[
        "{\"key1\":\"value1\",\"key2\":\"value2\"}",
        "{\"key1\":\"value1\"}",
    ]);
    assert_eq!(
        validate_contents(maps),
        Err(PipelineError::Length(LengthError::Mismatch))
    );
}

#[test]
fn test_pipeline_equality_after_length() {
    let maps = parse_all(&["{\"key1\":\"v\",\"key2\":\"v\"}", "{\"key3\":\"v\",\"key2\":\"v\"}"]);
    assert_eq!(
        validate_contents(maps),
        Err(PipelineError::Equality(EqualityError::KeySetMismatch))
    );
}

#[test]
fn test_pipeline_empty_file() {
    let maps = parse_all(&["{\"key1\":\"v\"}", "{}"]);
    assert_eq!(
        validate_contents(maps),
        Err(PipelineError::Length(LengthError::EmptyFile))
    );
}

#[test]
fn test_pipeline_no_input() {
    assert_eq!(
        validate_contents(vec![]),
        Err(PipelineError::Length(LengthError::NoInput))
    );
}

#[test]
fn test_pipeline_bad_extension() {
    let files = vec![String::from("notes.txt"), String::from("a.json")];
    assert_eq!(
        validate_inputs(&files),
        Err(PipelineError::Extension(ExtensionError::InvalidExtension))
    );
}

#[test]
fn test_pipeline_usage_error_first() {
    let files = vec![String::from("notes.txt")];
    assert_eq!(
        validate_inputs(&files),
        Err(PipelineError::Usage(UsageError::TooFewFiles))
    );
    assert!(UsageError::TooFewFiles
        .message()
        .contains("provide at least two files"));
}

#[test]
fn test_validate_usage() {
    assert!(validate_usage(&vec![]).is_err());
    assert!(validate_usage(&vec![String::from("a.json")]).is_err());
    assert!(validate_usage(&vec![String::from("a.json"), String::from("b.arb")]).is_ok());
}
