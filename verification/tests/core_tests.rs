use crate_checker::batch::{
    aggregate, cache_key, consult_cache, make_batch_response, normalize, store_check_result,
    BatchExecution, PackageQuery,
};
use crate_checker::cache::ResponseCache;
use crate_checker::checker::{
    check_error_result, check_found_result, check_missing_result, classify_versions,
    needs_version_list, retain_unyanked, runtime_dependencies, sort_versions_by_downloads,
    summarize_multi_check, validate_crate_name, version_check_latest, version_check_specific,
    version_download_entries, version_in_list,
};
use crate_checker::error::{error_from_status, CrateCheckerError};
use crate_checker::metrics::ServerMetrics;
use crate_checker::types::{
    crate_info_from_response, BatchInput, BatchOperation, BatchTarget, Category, CrateApiInfo,
    CrateResponse, CrateStatus, Dependency, Keyword, Version,
};
use crate_checker::urls::{crate_url, dependencies_url, search_url, versions_url};

fn version(num: &str, downloads: u64, yanked: bool) -> Version {
    Version {
        num: num.to_string(),
        created_at: 1_600_000_000,
        updated_at: 1_600_000_000,
        downloads,
        yanked,
        id: None,
        crate_size: None,
        published_by: None,
        audit_actions: None,
        license: None,
        links: None,
    }
}

fn dependency(name: &str, kind: &str) -> Dependency {
    Dependency {
        name: name.to_string(),
        req: "^1".to_string(),
        features: Vec::new(),
        optional: false,
        default_features: true,
        target: None,
        kind: kind.to_string(),
        downloads: None,
    }
}

fn query(name: &str, requested: Option<&str>) -> PackageQuery {
    PackageQuery {
        name: name.to_string(),
        requested_version: requested.map(|v| v.to_string()),
    }
}

// Round trip of a version map through normalization: two queries come out,
// with the specific version and the "latest" sentinel kept as written.
#[test]
fn test_normalize_version_map_round_trip() {
    let input = BatchInput::CrateVersionMap(vec![
        ("pkgA".to_string(), "1.0.0".to_string()),
        ("pkgB".to_string(), "latest".to_string()),
    ]);
    let queries = normalize(&input).unwrap();
    assert_eq!(queries.len(), 2);
    assert_eq!(queries[0].name, "pkgA");
    assert_eq!(queries[0].requested_version.as_deref(), Some("1.0.0"));
    assert_eq!(queries[1].name, "pkgB");
    assert_eq!(queries[1].requested_version.as_deref(), Some("latest"));
}

// One single target plus one multiple target with two names expand to a
// normalized sequence of length three, in that order.
#[test]
fn test_normalize_operations_order() {
    let input = BatchInput::Operations {
        operations: vec![
            BatchOperation {
                target: BatchTarget::Single {
                    crate_name: "pkgA".to_string(),
                    version: Some("2.0.0".to_string()),
                },
                operation: "check_version".to_string(),
            },
            BatchOperation {
                target: BatchTarget::Multiple {
                    crates: vec!["pkgB".to_string(), "pkgC".to_string()],
                },
                operation: "batch_check".to_string(),
            },
        ],
    };
    let queries = normalize(&input).unwrap();
    assert_eq!(queries.len(), 3);
    assert_eq!(queries[0].name, "pkgA");
    assert_eq!(queries[0].requested_version.as_deref(), Some("2.0.0"));
    assert_eq!(queries[1].name, "pkgB");
    assert!(queries[1].requested_version.is_none());
    assert_eq!(queries[2].name, "pkgC");
    assert!(queries[2].requested_version.is_none());
}

// An empty version map is rejected with a validation error before any
// upstream work.
#[test]
fn test_normalize_empty_version_map_rejected() {
    let input = BatchInput::CrateVersionMap(Vec::new());
    match normalize(&input).unwrap_err() {
        CrateCheckerError::ValidationError(m) => {
            assert_eq!(m, "Crate version map cannot be empty");
        }
        other => panic!("expected a validation error, got {:?}", other),
    }
}

#[test]
fn test_normalize_empty_name_rejected() {
    let input = BatchInput::CrateList {
        crates: vec!["serde".to_string(), "".to_string()],
    };
    match normalize(&input).unwrap_err() {
        CrateCheckerError::ValidationError(m) => {
            assert_eq!(m, "Crate name cannot be empty");
        }
        other => panic!("expected a validation error, got {:?}", other),
    }
}

#[test]
fn test_normalize_empty_operation_label_rejected() {
    let input = BatchInput::Operations {
        operations: vec![BatchOperation {
            target: BatchTarget::Single {
                crate_name: "serde".to_string(),
                version: None,
            },
            operation: "".to_string(),
        }],
    };
    match normalize(&input).unwrap_err() {
        CrateCheckerError::ValidationError(m) => {
            assert_eq!(m, "Operation type cannot be empty");
        }
        other => panic!("expected a validation error, got {:?}", other),
    }
}

// A batch over one existing and one missing package: two processed, one
// successful, one failed; the missing item has no error, it just does not
// exist.
#[test]
fn test_aggregate_existing_and_missing() {
    let found = check_found_result("real-pkg", None, None, None);
    let missing = check_missing_result("missing-pkg-xyz", None);
    let summary = aggregate(vec![found, missing], 12);
    assert_eq!(summary.total_processed, 2);
    assert_eq!(summary.successful, 1);
    assert_eq!(summary.failed, 1);
    assert_eq!(summary.processing_time_ms, 12);
    assert!(!summary.results[1].exists);
    assert!(summary.results[1].error.is_none());
}

#[test]
fn test_aggregate_counts_partition() {
    let ok = check_found_result("a", None, None, None);
    let err = check_error_result("b", None, &CrateCheckerError::RateLimitExceeded);
    let missing = check_missing_result("c", None);
    let summary = aggregate(vec![ok, err, missing], 0);
    assert_eq!(summary.total_processed, 3);
    assert_eq!(summary.successful + summary.failed, summary.total_processed);
    assert_eq!(summary.successful, 1);
}

// Recording results out of order leaves the output in query order, equal to
// a sequential pass over the same outcomes.
#[test]
fn test_execution_order_preserved() {
    let queries = vec![query("a", None), query("b", None), query("c", None)];
    let outcomes = vec![
        check_found_result("a", None, None, None),
        check_missing_result("b", None),
        check_found_result("c", None, None, None),
    ];

    let mut sequential = BatchExecution::new(clone_queries(&queries));
    for (i, r) in outcomes.iter().enumerate() {
        sequential.record(i, r.clone());
    }
    assert!(sequential.is_complete());
    let sequential_result = sequential.finish(7);

    let mut concurrent = BatchExecution::new(clone_queries(&queries));
    for &i in &[2usize, 0, 1] {
        concurrent.record(i, outcomes[i].clone());
    }
    assert!(concurrent.is_complete());
    let concurrent_result = concurrent.finish(7);

    assert_eq!(sequential_result.results, concurrent_result.results);
    assert_eq!(sequential_result.total_processed, 3);
    assert_eq!(sequential_result.results[0].crate_name, "a");
    assert_eq!(sequential_result.results[1].crate_name, "b");
    assert_eq!(sequential_result.results[2].crate_name, "c");
}

fn clone_queries(queries: &[PackageQuery]) -> Vec<PackageQuery> {
    queries.iter().cloned().collect()
}

#[test]
fn test_execution_incomplete_detected() {
    let mut exec = BatchExecution::new(vec![query("a", None), query("b", None)]);
    exec.record(1, check_missing_result("b", None));
    assert!(!exec.is_complete());
    assert!(exec.slot_open(0));
    assert!(!exec.slot_open(1));
    assert_eq!(exec.query_at(0).name, "a");
}

// Two reads of the same key within the TTL window return identical content,
// and the second read is still a hit.
#[test]
fn test_cache_idempotent_within_ttl() {
    let mut cache = ResponseCache::new(true, 300, 16);
    let q = query("serde", None);
    let stored = check_found_result("serde", None, None, None);
    store_check_result(&mut cache, &q, &stored, 0);

    let mut metrics = ServerMetrics::default();
    let first = consult_cache(&mut cache, &mut metrics, &q, 1_000).unwrap();
    let second = consult_cache(&mut cache, &mut metrics, &q, 2_000).unwrap();
    assert_eq!(first, stored);
    assert_eq!(second, stored);
    assert_eq!(metrics.cache_hits, 2);
    assert_eq!(metrics.cache_misses, 0);
}

// A cached entry requested after its TTL has elapsed misses, is removed,
// and the caller must check upstream afresh.
#[test]
fn test_cache_expiry_misses() {
    let mut cache = ResponseCache::new(true, 2, 16);
    let q = query("serde", None);
    let stored = check_missing_result("serde", None);
    store_check_result(&mut cache, &q, &stored, 0);
    assert_eq!(cache.len(), 1);

    let mut metrics = ServerMetrics::default();
    let hit = consult_cache(&mut cache, &mut metrics, &q, 5_000);
    assert!(hit.is_none());
    assert_eq!(metrics.cache_misses, 1);
    assert_eq!(cache.len(), 0);
}

// With max_entries of one, inserting two entries that have not expired
// leaves both stored: the write-time sweep removes expired entries only.
#[test]
fn test_cache_sweep_only_on_expiry() {
    let mut cache = ResponseCache::new(true, 300, 1);
    let qa = query("pkgA", None);
    let qb = query("pkgB", None);
    store_check_result(&mut cache, &qa, &check_missing_result("pkgA", None), 0);
    store_check_result(&mut cache, &qb, &check_missing_result("pkgB", None), 0);
    assert_eq!(cache.len(), 2);
}

#[test]
fn test_cache_sweep_purges_expired() {
    let mut cache = ResponseCache::new(true, 1, 1);
    let qa = query("pkgA", None);
    let qb = query("pkgB", None);
    let qc = query("pkgC", None);
    store_check_result(&mut cache, &qa, &check_missing_result("pkgA", None), 0);
    store_check_result(&mut cache, &qb, &check_missing_result("pkgB", None), 0);
    // Both entries expire after one second; the third write finds the map
    // over its bound and sweeps them.
    store_check_result(&mut cache, &qc, &check_missing_result("pkgC", None), 10_000);
    assert_eq!(cache.len(), 1);
}

#[test]
fn test_cache_disabled_stores_nothing() {
    let mut cache = ResponseCache::new(false, 300, 16);
    let q = query("serde", None);
    store_check_result(&mut cache, &q, &check_missing_result("serde", None), 0);
    assert_eq!(cache.len(), 0);
    let mut metrics = ServerMetrics::default();
    assert!(consult_cache(&mut cache, &mut metrics, &q, 0).is_none());
    assert_eq!(metrics.cache_misses, 1);
}

// A result that captured an upstream failure is never cached.
#[test]
fn test_cache_skips_errored_results() {
    let mut cache = ResponseCache::new(true, 300, 16);
    let q = query("serde", None);
    let errored = check_error_result("serde", None, &CrateCheckerError::RateLimitExceeded);
    store_check_result(&mut cache, &q, &errored, 0);
    assert_eq!(cache.len(), 0);
}

#[test]
fn test_cache_key_uses_latest_sentinel() {
    assert_eq!(cache_key(&query("serde", None)), "crate:serde:latest");
    assert_eq!(cache_key(&query("serde", Some("1.0.0"))), "crate:serde:1.0.0");
}

#[test]
fn test_metrics_record_request() {
    let mut metrics = ServerMetrics::default();
    metrics.record_request(true, 30);
    metrics.record_request(false, 10);
    metrics.record_request(true, 20);
    let snapshot = metrics.get_metrics();
    assert_eq!(snapshot.requests_total, 3);
    assert_eq!(snapshot.requests_successful, 2);
    assert_eq!(snapshot.requests_failed, 1);
    assert_eq!(snapshot.average_response_time_ms, 20);
    assert_eq!(snapshot.uptime_seconds, 0);
}

#[test]
fn test_metrics_empty_average() {
    let metrics = ServerMetrics::default();
    assert_eq!(metrics.get_metrics().average_response_time_ms, 0);
}

#[test]
fn test_make_batch_response() {
    let summary = aggregate(Vec::new(), 0);
    let response = make_batch_response(summary);
    assert_eq!(response.status, "completed");
    assert_eq!(response.request_id.len(), 36);
}

#[test]
fn test_validate_crate_name() {
    assert!(validate_crate_name("serde").is_ok());
    assert!(validate_crate_name("tokio-util_2").is_ok());
    assert!(validate_crate_name("").is_err());
    assert!(validate_crate_name("has space").is_err());
    let long = "a".repeat(65);
    assert!(validate_crate_name(&long).is_err());
}

#[test]
fn test_needs_version_list() {
    assert!(!needs_version_list(&None));
    assert!(!needs_version_list(&Some("latest".to_string())));
    assert!(needs_version_list(&Some("1.0.0".to_string())));
}

#[test]
fn test_version_in_list() {
    let versions = vec![version("1.0.0", 5, false), version("1.1.0", 9, false)];
    assert!(version_in_list(&versions, "1.1.0"));
    assert!(!version_in_list(&versions, "2.0.0"));
}

#[test]
fn test_check_found_result_latest_sentinel() {
    let r = check_found_result("serde", Some("latest".to_string()), None, None);
    assert!(r.exists);
    assert_eq!(r.version_exists, Some(true));
    assert!(r.error.is_none());
    assert!(r.latest_version.is_none());
}

#[test]
fn test_check_found_result_version_lookup() {
    let versions = vec![version("1.0.0", 5, false)];
    let r = check_found_result(
        "serde",
        Some("2.0.0".to_string()),
        None,
        Some(Some(versions)),
    );
    assert!(r.exists);
    assert_eq!(r.version_exists, Some(false));
    // A failed version-list fetch leaves the field unset.
    let soft = check_found_result("serde", Some("2.0.0".to_string()), None, Some(None));
    assert!(soft.version_exists.is_none());
}

#[test]
fn test_check_error_result_message() {
    let r = check_error_result("serde", None, &CrateCheckerError::RateLimitExceeded);
    assert!(!r.exists);
    assert_eq!(
        r.error.as_deref(),
        Some("API rate limit exceeded. Please try again later")
    );
}

#[test]
fn test_version_check_latest() {
    let err = CrateCheckerError::CrateNotFound("nope".to_string());
    let r = version_check_latest("nope", Err(err));
    assert!(!r.exists);
    assert_eq!(r.requested_version.as_deref(), Some("latest"));
    assert_eq!(r.error.as_deref(), Some("Crate 'nope' not found"));
}

#[test]
fn test_version_check_specific() {
    let versions = vec![version("1.0.0", 5, false), version("0.9.0", 2, true)];
    let r = version_check_specific("serde", "1.0.0".to_string(), Ok(versions), None);
    assert!(r.exists);
    assert_eq!(r.version_exists, Some(true));
    assert!(r.error.is_none());
}

#[test]
fn test_classify_versions() {
    assert_eq!(classify_versions(&Vec::new()), CrateStatus::NotFound);
    assert_eq!(
        classify_versions(&vec![version("1.0.0", 1, true), version("1.1.0", 1, true)]),
        CrateStatus::Yanked
    );
    assert_eq!(
        classify_versions(&vec![version("1.0.0", 1, true), version("1.1.0", 1, false)]),
        CrateStatus::PartiallyYanked
    );
    assert_eq!(
        classify_versions(&vec![version("1.0.0", 1, false)]),
        CrateStatus::Exists
    );
}

#[test]
fn test_retain_unyanked() {
    let kept = retain_unyanked(vec![
        version("1.0.0", 1, false),
        version("1.1.0", 1, true),
        version("1.2.0", 1, false),
    ]);
    let nums: Vec<&str> = kept.iter().map(|v| v.num.as_str()).collect();
    assert_eq!(nums, vec!["1.0.0", "1.2.0"]);
}

#[test]
fn test_runtime_dependencies() {
    let deps = runtime_dependencies(vec![
        dependency("serde", "normal"),
        dependency("criterion", "dev"),
        dependency("libc", "normal"),
    ]);
    let names: Vec<&str> = deps.iter().map(|d| d.name()).collect();
    assert_eq!(names, vec!["serde", "libc"]);
}

#[test]
fn test_sort_and_top_downloads() {
    let sorted = sort_versions_by_downloads(vec![
        version("1.0.0", 10, false),
        version("1.2.0", 99, false),
        version("1.1.0", 50, false),
    ]);
    let counts: Vec<u64> = sorted.iter().map(|v| v.downloads).collect();
    assert_eq!(counts, vec![99, 50, 10]);

    let entries = version_download_entries(&sorted, 2);
    assert_eq!(entries.len(), 2);
    assert_eq!(entries[0].version, "1.2.0");
    assert_eq!(entries[0].downloads, 99);
    assert_eq!(entries[1].version, "1.1.0");
}

#[test]
fn test_summarize_multi_check() {
    let names = vec!["a".to_string(), "b".to_string(), "c".to_string()];
    let flags = vec![true, false, true];
    let summary = summarize_multi_check(&names, &flags);
    assert_eq!(summary.total_checked, 3);
    assert_eq!(summary.existing, 2);
    assert_eq!(summary.missing, 1);
    assert_eq!(summary.existing_crates, vec!["a".to_string(), "c".to_string()]);
    assert_eq!(summary.missing_crates, vec!["b".to_string()]);
}

#[test]
fn test_crate_info_from_response() {
    let response = CrateResponse {
        crate_info: CrateApiInfo {
            name: "serde".to_string(),
            description: Some("serialization".to_string()),
            newest_version: "1.0.0".to_string(),
            downloads: 42,
            created_at: 1_500_000_000,
            updated_at: 1_600_000_000,
            homepage: None,
            repository: None,
            documentation: None,
            max_upload_size: None,
            recent_downloads: Some(7),
        },
        versions: None,
        keywords: Some(vec![
            Keyword { keyword: "serialization".to_string() },
            Keyword { keyword: "no_std".to_string() },
        ]),
        categories: None,
    };
    let info = crate_info_from_response(response);
    assert_eq!(info.name, "serde");
    assert_eq!(info.newest_version, "1.0.0");
    assert_eq!(info.keywords, vec!["serialization".to_string(), "no_std".to_string()]);
    assert!(info.categories.is_empty());
    assert!(info.license.is_none());
}

#[test]
fn test_error_classification() {
    assert!(CrateCheckerError::RateLimitExceeded.is_recoverable());
    assert!(CrateCheckerError::NetworkError("down".to_string()).is_recoverable());
    assert!(!CrateCheckerError::CrateNotFound("x".to_string()).is_recoverable());
    assert_eq!(
        CrateCheckerError::CrateNotFound("x".to_string()).status_code(),
        Some(404)
    );
    assert_eq!(CrateCheckerError::RateLimitExceeded.status_code(), Some(429));
    assert_eq!(
        CrateCheckerError::AuthError("no".to_string()).status_code(),
        Some(401)
    );
    assert_eq!(
        CrateCheckerError::BatchError("x".to_string()).status_code(),
        None
    );
}

#[test]
fn test_error_messages() {
    let e = CrateCheckerError::VersionNotFound {
        crate_name: "serde".to_string(),
        version: "9.9.9".to_string(),
    };
    assert_eq!(e.to_message(), "Version '9.9.9' not found for crate 'serde'");
    assert_eq!(
        e.user_message(),
        "Version '9.9.9' of crate 'serde' was not found"
    );
    assert_eq!(
        CrateCheckerError::Timeout(30).to_message(),
        "Request timeout after 30 seconds"
    );
    assert_eq!(
        CrateCheckerError::CrateNotFound("left-pad".to_string()).user_message(),
        "The crate 'left-pad' does not exist on crates.io"
    );
}

#[test]
fn test_error_from_status() {
    match error_from_status(404) {
        CrateCheckerError::ValidationError(m) => assert_eq!(m, "Resource not found"),
        other => panic!("unexpected {:?}", other),
    }
    assert_eq!(error_from_status(429), CrateCheckerError::RateLimitExceeded);
    match error_from_status(503) {
        CrateCheckerError::ServiceUnavailable(m) => assert_eq!(m, "Server error: 503"),
        other => panic!("unexpected {:?}", other),
    }
    match error_from_status(403) {
        CrateCheckerError::ServerError { status, message } => {
            assert_eq!(status, 403);
            assert_eq!(message, "Forbidden");
        }
        other => panic!("unexpected {:?}", other),
    }
}

#[test]
fn test_url_builders() {
    assert_eq!(
        crate_url("https://crates.io/api/v1", "serde"),
        "https://crates.io/api/v1/crates/serde"
    );
    assert_eq!(
        versions_url("https://crates.io/api/v1", "serde"),
        "https://crates.io/api/v1/crates/serde/versions"
    );
    assert_eq!(
        dependencies_url("https://crates.io/api/v1", "serde", "1.0.0"),
        "https://crates.io/api/v1/crates/serde/1.0.0/dependencies"
    );
}

#[test]
fn test_search_url_encodes_query() {
    assert_eq!(
        search_url("https://crates.io/api/v1", "http client", Some(5)),
        "https://crates.io/api/v1/crates?q=http%20client&per_page=5"
    );
    assert_eq!(
        search_url("https://crates.io/api/v1", "serde", None),
        "https://crates.io/api/v1/crates?q=serde"
    );
    // The page size is capped at one hundred.
    assert_eq!(
        search_url("https://crates.io/api/v1", "a", Some(500)),
        "https://crates.io/api/v1/crates?q=a&per_page=100"
    );
}
