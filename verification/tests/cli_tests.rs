use image_infer::cli::{Cli, ALGORITHM_FILE, CONFIG_FILE};
use image_infer::error::InferError;
use image_infer::file_op::FileOp;
use image_infer::text::{decimal_string, zero_padded_string};

#[test]
fn default_options() {
    let cli = Cli::default();
    assert_eq!(cli.config_path, Some("config".to_string()));
    assert_eq!(cli.image_path, Some("images".to_string()));
    assert!(!cli.rename);
    assert!(cli.parse_json);
}

#[test]
fn file_op_of_default_options() {
    assert_eq!(
        Cli::default().file_op(),
        Some(FileOp::new(
            "config/config.json".to_string(),
            "config/algorithm.json".to_string(),
            "images".to_string(),
        ))
    );
}

#[test]
fn file_op_joins_with_a_slash() {
    let cli = Cli {
        config_path: Some("/etc/infer/".to_string()),
        image_path: Some("/data".to_string()),
        rename: true,
        parse_json: false,
    };
    let file_op = cli.file_op().unwrap();
    assert_eq!(file_op.config_path, format!("{}/{}", "/etc/infer/", CONFIG_FILE));
    assert_eq!(file_op.algorithm_config_path, format!("{}/{}", "/etc/infer/", ALGORITHM_FILE));
    assert_eq!(file_op.image_path, "/data");
}

#[test]
fn file_op_needs_both_paths() {
    let mut cli = Cli::default();
    cli.config_path = None;
    assert_eq!(cli.file_op(), None);
    let mut cli = Cli::default();
    cli.image_path = None;
    assert_eq!(cli.file_op(), None);
}

#[test]
fn configuration_file_names() {
    assert_eq!(CONFIG_FILE, "config.json");
    assert_eq!(ALGORITHM_FILE, "algorithm.json");
}

#[test]
fn decimal_string_of_small_and_large_numbers() {
    assert_eq!(decimal_string(0), "0");
    assert_eq!(decimal_string(9), "9");
    assert_eq!(decimal_string(10), "10");
    assert_eq!(decimal_string(1234567890), "1234567890");
    assert_eq!(decimal_string(usize::MAX), usize::MAX.to_string());
}

#[test]
fn zero_padded_string_fills_from_the_left() {
    assert_eq!(zero_padded_string(0, 6), "000000");
    assert_eq!(zero_padded_string(12, 6), "000012");
    assert_eq!(zero_padded_string(123456, 6), "123456");
    assert_eq!(zero_padded_string(1234567, 6), "1234567");
    assert_eq!(zero_padded_string(5, 0), "5");
    assert_eq!(zero_padded_string(5, 1), "5");
    assert_eq!(zero_padded_string(5, 2), "05");
}

#[test]
fn every_error_has_its_message() {
    let all = [
        InferError::AlgorithmNotFound,
        InferError::ConfigLoadError,
        InferError::ImageReadError,
        InferError::CompletionServiceError,
        InferError::ExtractionParseError,
        InferError::FilesystemError,
        InferError::PatternRejected,
    ];
    assert_eq!(InferError::AlgorithmNotFound.message(), "Algorithm not found");
    for (i, a) in all.iter().enumerate() {
        assert!(!a.message().is_empty());
        for b in all.iter().skip(i + 1) {
            assert_ne!(a, b);
            assert_ne!(a.message(), b.message());
        }
    }
}
