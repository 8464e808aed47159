use crate_checker::error::CrateCheckerError;
use crate_checker::utils::{
    create_example_batch_inputs, extract_version_core, format_download_count, format_duration,
    format_file_size, is_semver_like, parse_timeout, progress_indicator, sanitize_crate_name,
    truncate_text,
};

#[test]
fn test_format_file_size() {
    assert_eq!(format_file_size(0), "0 B");
    assert_eq!(format_file_size(512), "512 B");
    assert_eq!(format_file_size(1024), "1.0 KB");
    assert_eq!(format_file_size(1536), "1.5 KB");
    assert_eq!(format_file_size(1048576), "1.0 MB");
}

#[test]
fn test_format_file_size_large_units() {
    assert_eq!(format_file_size(1073741824), "1.0 GB");
    assert_eq!(format_file_size(1099511627776), "1.0 TB");
    assert_eq!(format_file_size(1023), "1023 B");
}

#[test]
fn test_format_download_count() {
    assert_eq!(format_download_count(500), "500");
    assert_eq!(format_download_count(1500), "1.5K");
    assert_eq!(format_download_count(1500000), "1.5M");
    assert_eq!(format_download_count(2500000000), "2.5B");
}

#[test]
fn test_is_semver_like() {
    assert!(is_semver_like("1.0.0"));
    assert!(is_semver_like("2.1.3-beta"));
    assert!(is_semver_like("0.9.12+build.1"));
    assert!(!is_semver_like("invalid"));
    assert!(!is_semver_like("1.0"));
}

#[test]
fn test_parse_timeout() {
    assert_eq!(parse_timeout("30").unwrap(), 30);
    assert_eq!(parse_timeout("45s").unwrap(), 45);
    assert_eq!(parse_timeout("2m").unwrap(), 120);
    assert_eq!(parse_timeout("1h").unwrap(), 3600);
    assert!(parse_timeout("invalid").is_err());
}

#[test]
fn test_parse_timeout_trims_and_lowers() {
    assert_eq!(parse_timeout("  45S ").unwrap(), 45);
    assert_eq!(parse_timeout("\t2M\n").unwrap(), 120);
}

#[test]
fn test_parse_timeout_error_message() {
    let err = parse_timeout("soon").unwrap_err();
    match err {
        CrateCheckerError::ValidationError(m) => {
            assert_eq!(m, "Invalid timeout format: 'soon'. Use formats like '30s', '5m', '1h'");
        }
        other => panic!("expected a validation error, got {:?}", other),
    }
}

#[test]
fn test_format_duration() {
    assert_eq!(format_duration(0, 750), "750ms");
    assert_eq!(format_duration(45, 500), "45.5s");
    assert_eq!(format_duration(90, 0), "1m 30s");
}

#[test]
fn test_sanitize_crate_name() {
    assert_eq!(sanitize_crate_name("hello-world_2"), "hello-world_2");
    assert_eq!(sanitize_crate_name("bad name!*"), "badname");
    assert_eq!(sanitize_crate_name(""), "");
}

#[test]
fn test_extract_version_core() {
    assert_eq!(extract_version_core("1.2.3-beta.1"), Some("1.2.3".to_string()));
    assert_eq!(extract_version_core("1.2.3+build"), Some("1.2.3".to_string()));
    assert_eq!(extract_version_core("1.0"), None);
}

#[test]
fn test_truncate_text() {
    assert_eq!(truncate_text("short", 10), "short");
    assert_eq!(truncate_text("a longer sentence", 10), "a longe...");
}

#[test]
fn test_progress_indicator() {
    assert_eq!(progress_indicator(4, 10, 10), "[====      ] 4/10");
    assert_eq!(progress_indicator(10, 10, 10), "[==========] 10/10");
    assert_eq!(progress_indicator(3, 0, 10), "");
}

#[test]
fn test_create_example_batch_inputs() {
    let examples = create_example_batch_inputs();
    assert_eq!(examples.len(), 3);
    assert_eq!(examples[0].0, "Crate version map");
    assert_eq!(examples[1].0, "Crates list");
    assert_eq!(examples[2].0, "Advanced operations");
}
