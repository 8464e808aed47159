use crate_checker::error::CrateCheckerError;
use crate_checker::json::parse_json_input;
use crate_checker::types::{BatchInput, BatchTarget};

#[test]
fn test_parse_json_input_crate_version_map() {
    let json = r#"{"serde": "1.0.0", "tokio": "latest"}"#;
    let result = parse_json_input(json).unwrap();

    match result {
        BatchInput::CrateVersionMap(map) => {
            assert_eq!(map.len(), 2);
            let serde_version = map.iter().find(|(k, _)| k == "serde").map(|(_, v)| v.clone());
            assert_eq!(serde_version, Some("1.0.0".to_string()));
            let tokio_version = map.iter().find(|(k, _)| k == "tokio").map(|(_, v)| v.clone());
            assert_eq!(tokio_version, Some("latest".to_string()));
        }
        _ => panic!("Expected CrateVersionMap"),
    }
}

#[test]
fn test_parse_json_input_crates_list() {
    let json = r#"{"crates": ["serde", "tokio"]}"#;
    let result = parse_json_input(json).unwrap();

    match result {
        BatchInput::CrateList { crates } => {
            assert_eq!(crates, vec!["serde", "tokio"]);
        }
        _ => panic!("Expected CrateList"),
    }
}

#[test]
fn test_parse_json_input_operations() {
    let json = r#"{"operations": [
        {"crate": "serde", "version": "1.0.0", "operation": "check_version"},
        {"crate": "tokio", "operation": "info"},
        {"crates": ["tokio", "reqwest"], "operation": "batch_check"}
    ]}"#;
    let result = parse_json_input(json).unwrap();

    match result {
        BatchInput::Operations { operations } => {
            assert_eq!(operations.len(), 3);
            assert_eq!(operations[0].operation, "check_version");
            match &operations[0].target {
                BatchTarget::Single { crate_name, version } => {
                    assert_eq!(crate_name, "serde");
                    assert_eq!(version.as_deref(), Some("1.0.0"));
                }
                _ => panic!("Expected a single target"),
            }
            match &operations[1].target {
                BatchTarget::Single { crate_name, version } => {
                    assert_eq!(crate_name, "tokio");
                    assert!(version.is_none());
                }
                _ => panic!("Expected a single target"),
            }
            match &operations[2].target {
                BatchTarget::Multiple { crates } => {
                    assert_eq!(crates, &vec!["tokio".to_string(), "reqwest".to_string()]);
                }
                _ => panic!("Expected a multiple target"),
            }
        }
        _ => panic!("Expected Operations"),
    }
}

#[test]
fn test_parse_json_input_invalid_json() {
    let err = parse_json_input("not json at all").unwrap_err();
    match err {
        CrateCheckerError::InvalidBatchInput(m) => {
            assert!(m.starts_with("Invalid JSON: "));
        }
        other => panic!("expected invalid batch input, got {:?}", other),
    }
}

#[test]
fn test_parse_json_input_unrecognized_shape() {
    let err = parse_json_input(r#"{"crates": 42}"#).unwrap_err();
    match err {
        CrateCheckerError::InvalidBatchInput(m) => {
            assert_eq!(m, "Invalid crates list format. Expected array of strings.");
        }
        other => panic!("expected invalid batch input, got {:?}", other),
    }
}

#[test]
fn test_parse_json_input_shape_priority() {
    // All-string values are classified as a version map even when the keys
    // look like another shape.
    let json = r#"{"crate": "serde", "operation": "check"}"#;
    match parse_json_input(json).unwrap() {
        BatchInput::CrateVersionMap(map) => assert_eq!(map.len(), 2),
        _ => panic!("Expected CrateVersionMap"),
    }
}

#[test]
fn test_parse_json_input_non_object() {
    let err = parse_json_input("[1, 2, 3]").unwrap_err();
    match err {
        CrateCheckerError::InvalidBatchInput(m) => {
            assert_eq!(m, "Expected JSON object for batch input.");
        }
        other => panic!("expected invalid batch input, got {:?}", other),
    }
}

#[test]
fn test_parse_json_input_bad_operations() {
    let err = parse_json_input(r#"{"operations": [{"crate": "serde"}]}"#).unwrap_err();
    match err {
        CrateCheckerError::InvalidBatchInput(m) => {
            assert_eq!(
                m,
                "Invalid operations format. Expected array of operation objects."
            );
        }
        other => panic!("expected invalid batch input, got {:?}", other),
    }
}
