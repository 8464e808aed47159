//! Decision core of the single-item checker.
//!
//! One check runs up to three upstream calls: an authoritative existence
//! check, a best-effort metadata fetch, and a best-effort version-list
//! fetch. The surrounding application performs the calls; the functions
//! here make every decision between them and assemble the final
//! [`CrateCheckResult`], so a check never propagates an upstream failure.

use vstd::prelude::*;
use vstd::string::*;
use crate::error::{spec_error_message, CrateCheckerError};
use crate::text::str_eq;
use crate::types::{
    opt_str_view, CrateCheckResult, CrateInfo, CrateStatus, Dependency, Version, VersionDownload,
};

verus! {

/// Characters allowed in a crate name.
pub open spec fn is_name_char(c: char) -> bool {
    ('a' <= c && c <= 'z') || ('A' <= c && c <= 'Z') || ('0' <= c && c <= '9') || c == '-' || c
        == '_'
}

/// A valid crate name is non-empty, at most 64 characters, and drawn from
/// letters, digits, hyphen and underscore.
pub open spec fn spec_valid_crate_name(s: Seq<char>) -> bool {
    0 < s.len() <= 64 && forall|i: int| 0 <= i < s.len() ==> is_name_char(s[i])
}

/// Validate a crate name, reporting which rule it broke.
pub fn validate_crate_name(name: &str) -> (r: Result<(), CrateCheckerError>)
    ensures
        r is Ok <==> spec_valid_crate_name(name@),
        r matches Err(e) ==> (e matches CrateCheckerError::InvalidCrateName(n, _) && n@ == name@),
{
    let len = name.unicode_len();
    if len == 0 {
        return Err(
            CrateCheckerError::InvalidCrateName(
                name.to_owned(),
                "Crate name cannot be empty".to_owned(),
            ),
        );
    }
    if len > 64 {
        return Err(
            CrateCheckerError::InvalidCrateName(
                name.to_owned(),
                "Crate name cannot be longer than 64 characters".to_owned(),
            ),
        );
    }
    let mut i: usize = 0;
    while i < len
        invariant
            len == name@.len(),
            0 <= i <= len,
            forall|j: int| 0 <= j < i ==> is_name_char(name@[j]),
        decreases len - i,
    {
        let c = name.get_char(i);
        let ok = ('a' <= c && c <= 'z') || ('A' <= c && c <= 'Z') || ('0' <= c && c <= '9') || c
            == '-' || c == '_';
        if !ok {
            return Err(
                CrateCheckerError::InvalidCrateName(name.to_owned(), "^[a-zA-Z0-9_-]+$".to_owned()),
            );
        }
        i = i + 1;
    }
    Ok(())
}

/// Whether a requested version calls for a version-list lookup: one is
/// needed exactly when a specific version other than the "latest" sentinel
/// was requested.
pub open spec fn spec_needs_version_list(requested: Option<Seq<char>>) -> bool {
    match requested {
        Some(v) => v != "latest"@,
        None => false,
    }
}

/// Decide whether the checker must fetch the version list for this request.
pub fn needs_version_list(requested_version: &Option<String>) -> (b: bool)
    ensures
        b == spec_needs_version_list(opt_str_view(*requested_version)),
{
    match requested_version {
        Some(v) => !str_eq(v.as_str(), "latest"),
        None => false,
    }
}

/// Whether some entry of the version list carries exactly this version
/// number.
pub open spec fn spec_version_in_list(versions: Seq<Version>, requested: Seq<char>) -> bool {
    exists|i: int| 0 <= i < versions.len() && versions[i].num@ == requested
}

/// Search the version list for the requested version number.
pub fn version_in_list(versions: &Vec<Version>, requested: &str) -> (b: bool)
    ensures
        b == spec_version_in_list(versions@, requested@),
{
    let mut i: usize = 0;
    while i < versions.len()
        invariant
            0 <= i <= versions@.len(),
            forall|j: int| 0 <= j < i ==> versions@[j].num@ != requested@,
        decreases versions@.len() - i,
    {
        if str_eq(versions[i].num.as_str(), requested) {
            return true;
        }
        i = i + 1;
    }
    false
}

/// The result of a check whose existence call itself failed: the failure is
/// captured in the error field and nothing else is known.
pub fn check_error_result(
    crate_name: &str,
    requested_version: Option<String>,
    error: &CrateCheckerError,
) -> (r: CrateCheckResult)
    ensures
        r@.crate_name == crate_name@,
        !r@.exists,
        r@.latest_version is None,
        r@.requested_version == opt_str_view(requested_version),
        r@.version_exists is None,
        r@.error == Some(spec_error_message(*error)),
        r@.info is None,
{
    CrateCheckResult {
        crate_name: crate_name.to_owned(),
        exists: false,
        latest_version: None,
        requested_version,
        version_exists: None,
        error: Some(error.to_message()),
        info: None,
    }
}

/// The result of a check whose existence call succeeded and answered "no":
/// terminal, with the error field unset.
pub fn check_missing_result(crate_name: &str, requested_version: Option<String>) -> (r:
    CrateCheckResult)
    ensures
        r@.crate_name == crate_name@,
        !r@.exists,
        r@.latest_version is None,
        r@.requested_version == opt_str_view(requested_version),
        r@.version_exists is None,
        r@.error is None,
        r@.info is None,
{
    CrateCheckResult {
        crate_name: crate_name.to_owned(),
        exists: false,
        latest_version: None,
        requested_version,
        version_exists: None,
        error: None,
        info: None,
    }
}

/// The result of a check whose existence call answered "yes".
///
/// `info` is the metadata fetch outcome (`None` when that soft call
/// failed). `version_list` must be the version-list fetch outcome exactly
/// when [`needs_version_list`] asked for one, again with `None` inside for
/// a soft failure.
pub fn check_found_result(
    crate_name: &str,
    requested_version: Option<String>,
    info: Option<CrateInfo>,
    version_list: Option<Option<Vec<Version>>>,
) -> (r: CrateCheckResult)
    requires
        (version_list is Some) == spec_needs_version_list(opt_str_view(requested_version)),
    ensures
        r@.crate_name == crate_name@,
        r@.exists,
        r@.error is None,
        r@.requested_version == opt_str_view(requested_version),
        r@.latest_version == (match info {
            Some(i) => Some(i@.newest_version),
            None => None,
        }),
        r@.info == (match info {
            Some(i) => Some(i@),
            None => None,
        }),
        requested_version is None ==> r@.version_exists is None,
        requested_version matches Some(v) ==> r@.version_exists == (if v@ == "latest"@ {
            Some(true)
        } else {
            match version_list {
                Some(Some(vs)) => Some(spec_version_in_list(vs@, v@)),
                _ => None,
            }
        }),
{
    let version_exists: Option<bool> = match &requested_version {
        Some(v) => {
            if str_eq(v.as_str(), "latest") {
                Some(true)
            } else {
                match &version_list {
                    Some(Some(vs)) => Some(version_in_list(vs, v.as_str())),
                    _ => None,
                }
            }
        },
        None => None,
    };
    let latest_version: Option<String> = match &info {
        Some(i) => Some(i.newest_version.clone()),
        None => None,
    };
    CrateCheckResult {
        crate_name: crate_name.to_owned(),
        exists: true,
        latest_version,
        requested_version,
        version_exists,
        error: None,
        info,
    }
}

/// The result of a "check this name at latest" request, built from the
/// metadata fetch outcome alone.
pub fn version_check_latest(name: &str, info_outcome: Result<CrateInfo, CrateCheckerError>) -> (r:
    CrateCheckResult)
    ensures
        r@.crate_name == name@,
        r@.requested_version == Some("latest"@),
        info_outcome matches Ok(i) ==> (r@.exists && r@.latest_version == Some(i@.newest_version)
            && r@.version_exists == Some(true) && r@.error is None && r@.info == Some(i@)),
        info_outcome matches Err(e) ==> (!r@.exists && r@.latest_version is None
            && r@.version_exists is None && r@.error == Some(spec_error_message(e))
            && r@.info is None),
{
    match info_outcome {
        Ok(info) => {
            let latest = info.newest_version.clone();
            CrateCheckResult {
                crate_name: name.to_owned(),
                exists: true,
                latest_version: Some(latest),
                requested_version: Some("latest".to_owned()),
                version_exists: Some(true),
                error: None,
                info: Some(info),
            }
        },
        Err(e) => CrateCheckResult {
            crate_name: name.to_owned(),
            exists: false,
            latest_version: None,
            requested_version: Some("latest".to_owned()),
            version_exists: None,
            error: Some(e.to_message()),
            info: None,
        },
    }
}

/// The result of a "check this name at a specific version" request, built
/// from the version-list fetch outcome and an optional metadata record
/// (fetched only when the version was found, `None` when that soft call
/// failed).
pub fn version_check_specific(
    name: &str,
    version: String,
    versions_outcome: Result<Vec<Version>, CrateCheckerError>,
    info: Option<CrateInfo>,
) -> (r: CrateCheckResult)
    requires
        versions_outcome is Err ==> info is None,
    ensures
        r@.crate_name == name@,
        r@.requested_version == Some(version@),
        versions_outcome matches Ok(vs) ==> (r@.exists && r@.version_exists == Some(
            spec_version_in_list(vs@, version@),
        ) && r@.error is None && r@.latest_version == (match info {
            Some(i) => Some(i@.newest_version),
            None => None,
        }) && r@.info == (match info {
            Some(i) => Some(i@),
            None => None,
        })),
        versions_outcome matches Err(e) ==> (!r@.exists && r@.latest_version is None
            && r@.version_exists is None && r@.error == Some(spec_error_message(e))
            && r@.info is None),
{
    match versions_outcome {
        Ok(versions) => {
            let found = version_in_list(&versions, version.as_str());
            let latest_version: Option<String> = match &info {
                Some(i) => Some(i.newest_version.clone()),
                None => None,
            };
            CrateCheckResult {
                crate_name: name.to_owned(),
                exists: true,
                latest_version,
                requested_version: Some(version),
                version_exists: Some(found),
                error: None,
                info,
            }
        },
        Err(e) => CrateCheckResult {
            crate_name: name.to_owned(),
            exists: false,
            latest_version: None,
            requested_version: Some(version),
            version_exists: None,
            error: Some(e.to_message()),
            info: None,
        },
    }
}

/// Number of yanked entries in a version list.
pub open spec fn spec_count_yanked(s: Seq<Version>) -> int
    decreases s.len(),
{
    if s.len() == 0 {
        0
    } else {
        spec_count_yanked(s.drop_last()) + if s.last().yanked {
            1int
        } else {
            0int
        }
    }
}

/// How a version list classifies a crate's status.
pub open spec fn spec_classify_versions(s: Seq<Version>) -> CrateStatus {
    if s.len() == 0 {
        CrateStatus::NotFound
    } else if spec_count_yanked(s) == s.len() {
        CrateStatus::Yanked
    } else if spec_count_yanked(s) > 0 {
        CrateStatus::PartiallyYanked
    } else {
        CrateStatus::Exists
    }
}

proof fn lemma_count_yanked_bound(s: Seq<Version>)
    ensures
        0 <= spec_count_yanked(s) <= s.len(),
    decreases s.len(),
{
    if s.len() > 0 {
        lemma_count_yanked_bound(s.drop_last());
    }
}

/// Classify a crate's status from its version list: absent, fully yanked,
/// partially yanked, or available.
pub fn classify_versions(versions: &Vec<Version>) -> (r: CrateStatus)
    ensures
        r == spec_classify_versions(versions@),
{
    if versions.len() == 0 {
        return CrateStatus::NotFound;
    }
    let mut yanked_count: usize = 0;
    let mut i: usize = 0;
    while i < versions.len()
        invariant
            0 <= i <= versions@.len(),
            yanked_count == spec_count_yanked(versions@.subrange(0, i as int)),
            yanked_count <= i,
        decreases versions@.len() - i,
    {
        proof {
            assert(versions@.subrange(0, i + 1).drop_last() =~= versions@.subrange(0, i as int));
        }
        if versions[i].yanked {
            yanked_count = yanked_count + 1;
        }
        i = i + 1;
    }
    proof {
        assert(versions@.subrange(0, versions@.len() as int) =~= versions@);
        lemma_count_yanked_bound(versions@);
    }
    if yanked_count == versions.len() {
        CrateStatus::Yanked
    } else if yanked_count > 0 {
        CrateStatus::PartiallyYanked
    } else {
        CrateStatus::Exists
    }
}

/// The subsequence of versions that are not yanked, in order.
pub open spec fn spec_retain_unyanked(s: Seq<Version>) -> Seq<Version>
    decreases s.len(),
{
    if s.len() == 0 {
        Seq::empty()
    } else {
        spec_retain_unyanked(s.drop_last()) + if !s.last().yanked {
            seq![s.last()]
        } else {
            Seq::empty()
        }
    }
}

/// Keep only the versions that are not yanked, preserving order.
pub fn retain_unyanked(versions: Vec<Version>) -> (r: Vec<Version>)
    ensures
        r@ == spec_retain_unyanked(versions@),
    decreases versions@.len(),
{
    let ghost orig = versions@;
    let mut versions = versions;
    match versions.pop() {
        Some(x) => {
            let mut r = retain_unyanked(versions);
            if !x.yanked {
                r.push(x);
            }
            proof {
                assert(r@ =~= spec_retain_unyanked(orig));
            }
            r
        },
        None => {
            versions
        },
    }
}

/// The subsequence of dependencies whose kind is "normal", in order.
pub open spec fn spec_runtime_deps(s: Seq<Dependency>) -> Seq<Dependency>
    decreases s.len(),
{
    if s.len() == 0 {
        Seq::empty()
    } else {
        spec_runtime_deps(s.drop_last()) + if s.last().kind@ == "normal"@ {
            seq![s.last()]
        } else {
            Seq::empty()
        }
    }
}

/// Keep only the runtime ("normal") dependencies, preserving order.
pub fn runtime_dependencies(deps: Vec<Dependency>) -> (r: Vec<Dependency>)
    ensures
        r@ == spec_runtime_deps(deps@),
    decreases deps@.len(),
{
    let ghost orig = deps@;
    let mut deps = deps;
    match deps.pop() {
        Some(x) => {
            let mut r = runtime_dependencies(deps);
            if str_eq(x.kind.as_str(), "normal") {
                r.push(x);
            }
            proof {
                assert(r@ =~= spec_runtime_deps(orig));
            }
            r
        },
        None => {
            deps
        },
    }
}

/// Descending order on download counts.
pub open spec fn spec_sorted_desc_by_downloads(s: Seq<Version>) -> bool {
    forall|i: int, j: int| 0 <= i <= j < s.len() ==> s[i].downloads >= s[j].downloads
}

fn max_downloads_index(v: &Vec<Version>) -> (r: usize)
    requires
        v@.len() > 0,
    ensures
        r < v@.len(),
        forall|j: int| 0 <= j < v@.len() ==> v@[r as int].downloads >= v@[j].downloads,
{
    let mut best: usize = 0;
    let mut i: usize = 1;
    while i < v.len()
        invariant
            0 <= best < v@.len(),
            1 <= i <= v@.len(),
            forall|j: int| 0 <= j < i ==> v@[best as int].downloads >= v@[j].downloads,
        decreases v@.len() - i,
    {
        if v[i].downloads > v[best].downloads {
            best = i;
        }
        i = i + 1;
    }
    best
}

/// Sort a version list by download count, most downloaded first. The result
/// holds exactly the input versions.
pub fn sort_versions_by_downloads(versions: Vec<Version>) -> (r: Vec<Version>)
    ensures
        r@.to_multiset() == versions@.to_multiset(),
        spec_sorted_desc_by_downloads(r@),
{
    broadcast use vstd::seq_lib::group_to_multiset_ensures, vstd::multiset::group_multiset_axioms;

    let ghost orig = versions@;
    let mut rem = versions;
    let mut out: Vec<Version> = Vec::new();
    while rem.len() > 0
        invariant
            out@.to_multiset().add(rem@.to_multiset()) =~= orig.to_multiset(),
            spec_sorted_desc_by_downloads(out@),
            forall|i: int, j: int|
                0 <= i < out@.len() && 0 <= j < rem@.len() ==> out@[i].downloads
                    >= rem@[j].downloads,
        decreases rem@.len(),
    {
        let idx = max_downloads_index(&rem);
        let ghost rem_before = rem@;
        let ghost out_before = out@;
        let x = rem.remove(idx);
        out.push(x);
        proof {
            broadcast use vstd::seq_lib::group_to_multiset_ensures, vstd::multiset::group_multiset_axioms;

            assert(x == rem_before[idx as int]);
            assert(rem_before.contains(x));
            assert(rem_before.to_multiset().count(x) > 0);
            assert(rem@ == rem_before.remove(idx as int));
            assert(rem@.to_multiset() =~= rem_before.to_multiset().remove(x));
            assert(out@ == out_before.push(x));
            assert(out@.to_multiset() =~= out_before.to_multiset().insert(x));
            assert(out@.to_multiset().add(rem@.to_multiset()) =~= out_before.to_multiset().add(
                rem_before.to_multiset(),
            ));
            assert forall|j: int| 0 <= j < rem@.len() implies x.downloads
                >= rem@[j].downloads by {
                if j < idx {
                    assert(rem@[j] == rem_before[j]);
                } else {
                    assert(rem@[j] == rem_before[j + 1]);
                }
            }
        }
    }
    proof {
        assert(out@.to_multiset().add(rem@.to_multiset()) =~= out@.to_multiset()) by {
            assert(rem@ =~= Seq::<Version>::empty());
        }
    }
    out
}

/// Project the first `limit` versions of a list into download-statistics
/// entries, field for field.
pub fn version_download_entries(versions: &Vec<Version>, limit: usize) -> (r: Vec<VersionDownload>)
    ensures
        r@.len() == vstd::math::min(limit as int, versions@.len() as int),
        forall|i: int|
            0 <= i < r@.len() ==> (r@[i].version@ == versions@[i].num@ && r@[i].downloads
                == versions@[i].downloads && r@[i].date == versions@[i].created_at),
{
    let n = if limit < versions.len() {
        limit
    } else {
        versions.len()
    };
    let mut r: Vec<VersionDownload> = Vec::new();
    let mut i: usize = 0;
    while i < n
        invariant
            0 <= i <= n,
            n == vstd::math::min(limit as int, versions@.len() as int),
            r@.len() == i,
            forall|k: int|
                0 <= k < i ==> (r@[k].version@ == versions@[k].num@ && r@[k].downloads
                    == versions@[k].downloads && r@[k].date == versions@[k].created_at),
        decreases n - i,
    {
        let v = &versions[i];
        r.push(
            VersionDownload {
                version: v.num.clone(),
                downloads: v.downloads,
                date: v.created_at,
            },
        );
        i = i + 1;
    }
    r
}

/// Summary of a multi-crate existence check.
#[derive(Debug, PartialEq)]
pub struct MultiCheckSummary {
    pub total_checked: usize,
    pub existing: usize,
    pub missing: usize,
    pub existing_crates: Vec<String>,
    pub missing_crates: Vec<String>,
}

/// Number of `true` flags.
pub open spec fn spec_count_true(s: Seq<bool>) -> int
    decreases s.len(),
{
    if s.len() == 0 {
        0
    } else {
        spec_count_true(s.drop_last()) + if s.last() {
            1int
        } else {
            0int
        }
    }
}

proof fn lemma_count_true_bound(s: Seq<bool>)
    ensures
        0 <= spec_count_true(s) <= s.len(),
    decreases s.len(),
{
    if s.len() > 0 {
        lemma_count_true_bound(s.drop_last());
    }
}

/// The names whose flag equals `keep`, in input order.
pub open spec fn spec_selected(names: Seq<Seq<char>>, flags: Seq<bool>, keep: bool) -> Seq<
    Seq<char>,
>
    recommends
        names.len() == flags.len(),
    decreases names.len(),
{
    if names.len() == 0 {
        Seq::empty()
    } else {
        spec_selected(names.drop_last(), flags.drop_last(), keep) + if flags.last() == keep {
            seq![names.last()]
        } else {
            Seq::empty()
        }
    }
}

/// Fold per-crate existence outcomes into a multi-check summary: names with
/// a `true` flag are listed as existing, the others (including names whose
/// check errored) as missing, in input order.
pub fn summarize_multi_check(names: &Vec<String>, exists_flags: &Vec<bool>) -> (r:
    MultiCheckSummary)
    requires
        names@.len() == exists_flags@.len(),
    ensures
        r.total_checked == names@.len(),
        r.existing == spec_count_true(exists_flags@),
        r.missing == names@.len() - spec_count_true(exists_flags@),
        r.existing + r.missing == r.total_checked,
        r.existing_crates.deep_view() == spec_selected(names.deep_view(), exists_flags@, true),
        r.missing_crates.deep_view() == spec_selected(names.deep_view(), exists_flags@, false),
        r.existing_crates@.len() == r.existing,
        r.missing_crates@.len() == r.missing,
{
    let ghost dv = names.deep_view();
    let mut existing_crates: Vec<String> = Vec::new();
    let mut missing_crates: Vec<String> = Vec::new();
    let mut existing: usize = 0;
    let mut i: usize = 0;
    while i < names.len()
        invariant
            names@.len() == exists_flags@.len(),
            dv == names.deep_view(),
            dv.len() == names@.len(),
            0 <= i <= names@.len(),
            existing == spec_count_true(exists_flags@.subrange(0, i as int)),
            existing <= i,
            existing_crates.deep_view() == spec_selected(
                dv.subrange(0, i as int),
                exists_flags@.subrange(0, i as int),
                true,
            ),
            missing_crates.deep_view() == spec_selected(
                dv.subrange(0, i as int),
                exists_flags@.subrange(0, i as int),
                false,
            ),
            existing_crates@.len() == existing,
            existing_crates@.len() + missing_crates@.len() == i,
        decreases names@.len() - i,
    {
        proof {
            assert(exists_flags@.subrange(0, i + 1).drop_last() =~= exists_flags@.subrange(
                0,
                i as int,
            ));
            assert(dv.subrange(0, i + 1).drop_last() =~= dv.subrange(0, i as int));
            assert(dv.subrange(0, i + 1).last() == dv[i as int]);
        }
        let name = names[i].clone();
        if exists_flags[i] {
            existing_crates.push(name);
            existing = existing + 1;
            proof {
                assert(existing_crates.deep_view() =~= spec_selected(
                    dv.subrange(0, i + 1),
                    exists_flags@.subrange(0, i + 1),
                    true,
                ));
                assert(missing_crates.deep_view() =~= spec_selected(
                    dv.subrange(0, i + 1),
                    exists_flags@.subrange(0, i + 1),
                    false,
                ));
            }
        } else {
            missing_crates.push(name);
            proof {
                assert(existing_crates.deep_view() =~= spec_selected(
                    dv.subrange(0, i + 1),
                    exists_flags@.subrange(0, i + 1),
                    true,
                ));
                assert(missing_crates.deep_view() =~= spec_selected(
                    dv.subrange(0, i + 1),
                    exists_flags@.subrange(0, i + 1),
                    false,
                ));
            }
        }
        i = i + 1;
    }
    proof {
        assert(exists_flags@.subrange(0, exists_flags@.len() as int) =~= exists_flags@);
        assert(dv.subrange(0, dv.len() as int) =~= dv);
        lemma_count_true_bound(exists_flags@);
    }
    let missing = names.len() - existing;
    MultiCheckSummary {
        total_checked: names.len(),
        existing,
        missing,
        existing_crates,
        missing_crates,
    }
}

} // verus!
