//! Data types for the crate checker: registry records, batch inputs and
//! per-item check results.
//!
//! Timestamps are carried as Unix seconds (`i64`); the surrounding
//! application converts to and from its calendar types at the edge.

use vstd::prelude::*;

verus! {

/// Mathematical content of an optional string.
pub open spec fn opt_str_view(o: Option<String>) -> Option<Seq<char>> {
    match o {
        Some(s) => Some(s@),
        None => None,
    }
}

/// Links associated with a crate.
#[derive(Debug, PartialEq)]
pub struct CrateLinks {
    pub owner_team: Option<String>,
    pub owner_user: Option<String>,
    pub reverse_dependencies: Option<String>,
    pub version_downloads: Option<String>,
    pub versions: Option<String>,
}

/// Mathematical content of [`CrateLinks`].
pub ghost struct CrateLinksView {
    pub owner_team: Option<Seq<char>>,
    pub owner_user: Option<Seq<char>>,
    pub reverse_dependencies: Option<Seq<char>>,
    pub version_downloads: Option<Seq<char>>,
    pub versions: Option<Seq<char>>,
}

impl View for CrateLinks {
    type V = CrateLinksView;

    open spec fn view(&self) -> CrateLinksView {
        CrateLinksView {
            owner_team: opt_str_view(self.owner_team),
            owner_user: opt_str_view(self.owner_user),
            reverse_dependencies: opt_str_view(self.reverse_dependencies),
            version_downloads: opt_str_view(self.version_downloads),
            versions: opt_str_view(self.versions),
        }
    }
}

impl Clone for CrateLinks {
    fn clone(&self) -> (res: Self)
        ensures
            res@ == self@,
    {
        CrateLinks {
            owner_team: self.owner_team.clone(),
            owner_user: self.owner_user.clone(),
            reverse_dependencies: self.reverse_dependencies.clone(),
            version_downloads: self.version_downloads.clone(),
            versions: self.versions.clone(),
        }
    }
}

/// Main crate information record.
#[derive(Debug, PartialEq)]
pub struct CrateInfo {
    /// Crate name.
    pub name: String,
    /// Crate description.
    pub description: Option<String>,
    /// Latest version number.
    pub newest_version: String,
    /// Total download count.
    pub downloads: u64,
    /// Creation timestamp (Unix seconds).
    pub created_at: i64,
    /// Last update timestamp (Unix seconds).
    pub updated_at: i64,
    /// Homepage URL.
    pub homepage: Option<String>,
    /// Repository URL.
    pub repository: Option<String>,
    /// Documentation URL.
    pub documentation: Option<String>,
    /// Associated keywords.
    pub keywords: Vec<String>,
    /// Associated categories.
    pub categories: Vec<String>,
    /// Maximum upload size in bytes.
    pub max_upload_size: Option<u64>,
    /// License information.
    pub license: Option<String>,
    /// Whether the crate is yanked.
    pub yanked: Option<bool>,
    /// Links to various resources.
    pub links: Option<CrateLinks>,
}

/// Mathematical content of [`CrateInfo`].
pub ghost struct CrateInfoView {
    pub name: Seq<char>,
    pub description: Option<Seq<char>>,
    pub newest_version: Seq<char>,
    pub downloads: u64,
    pub created_at: i64,
    pub updated_at: i64,
    pub homepage: Option<Seq<char>>,
    pub repository: Option<Seq<char>>,
    pub documentation: Option<Seq<char>>,
    pub keywords: Seq<Seq<char>>,
    pub categories: Seq<Seq<char>>,
    pub max_upload_size: Option<u64>,
    pub license: Option<Seq<char>>,
    pub yanked: Option<bool>,
    pub links: Option<CrateLinksView>,
}

impl View for CrateInfo {
    type V = CrateInfoView;

    open spec fn view(&self) -> CrateInfoView {
        CrateInfoView {
            name: self.name@,
            description: opt_str_view(self.description),
            newest_version: self.newest_version@,
            downloads: self.downloads,
            created_at: self.created_at,
            updated_at: self.updated_at,
            homepage: opt_str_view(self.homepage),
            repository: opt_str_view(self.repository),
            documentation: opt_str_view(self.documentation),
            keywords: self.keywords.deep_view(),
            categories: self.categories.deep_view(),
            max_upload_size: self.max_upload_size,
            license: opt_str_view(self.license),
            yanked: self.yanked,
            links: match self.links {
                Some(l) => Some(l@),
                None => None,
            },
        }
    }
}

impl Clone for CrateInfo {
    fn clone(&self) -> (res: Self)
        ensures
            res@ == self@,
    {
        let res = CrateInfo {
            name: self.name.clone(),
            description: self.description.clone(),
            newest_version: self.newest_version.clone(),
            downloads: self.downloads,
            created_at: self.created_at,
            updated_at: self.updated_at,
            homepage: self.homepage.clone(),
            repository: self.repository.clone(),
            documentation: self.documentation.clone(),
            keywords: self.keywords.clone(),
            categories: self.categories.clone(),
            max_upload_size: self.max_upload_size,
            license: self.license.clone(),
            yanked: self.yanked,
            links: self.links.clone(),
        };
        proof {
            assert(res.keywords.deep_view() =~= self.keywords.deep_view());
            assert(res.categories.deep_view() =~= self.categories.deep_view());
        }
        res
    }
}

/// User information.
#[derive(Debug, Clone, PartialEq)]
pub struct User {
    pub id: u64,
    pub login: String,
    pub name: Option<String>,
    pub avatar: Option<String>,
    pub url: Option<String>,
}

/// Audit action information.
#[derive(Debug, Clone, PartialEq)]
pub struct AuditAction {
    pub action: String,
    pub user: User,
    /// Timestamp of the action (Unix seconds).
    pub time: i64,
}

/// Links for a specific version.
#[derive(Debug, Clone, PartialEq)]
pub struct VersionLinks {
    pub dependencies: Option<String>,
    pub version_downloads: Option<String>,
    pub authors: Option<String>,
}

/// Version information.
#[derive(Debug, Clone, PartialEq)]
pub struct Version {
    /// Version number.
    pub num: String,
    /// Creation timestamp (Unix seconds).
    pub created_at: i64,
    /// Last update timestamp (Unix seconds).
    pub updated_at: i64,
    /// Download count for this version.
    pub downloads: u64,
    /// Whether this version is yanked.
    pub yanked: bool,
    /// Version ID.
    pub id: Option<u64>,
    /// Crate size in bytes.
    pub crate_size: Option<u64>,
    /// Published by user.
    pub published_by: Option<User>,
    /// Audit actions.
    pub audit_actions: Option<Vec<AuditAction>>,
    /// License information.
    pub license: Option<String>,
    /// Links for this version.
    pub links: Option<VersionLinks>,
}

/// Crate status enumeration.
#[derive(Debug, Clone, PartialEq, Eq, Structural)]
pub enum CrateStatus {
    /// Crate exists and is available.
    Exists,
    /// Crate was not found.
    NotFound,
    /// All versions are yanked.
    Yanked,
    /// Some versions are yanked.
    PartiallyYanked,
}

/// Search result for crates.
#[derive(Debug, Clone, PartialEq)]
pub struct CrateSearchResult {
    pub name: String,
    pub description: Option<String>,
    pub newest_version: String,
    pub downloads: u64,
    pub exact_match: bool,
}

/// Dependency information.
#[derive(Debug, Clone, PartialEq)]
pub struct Dependency {
    pub name: String,
    pub req: String,
    pub features: Vec<String>,
    pub optional: bool,
    pub default_features: bool,
    pub target: Option<String>,
    pub kind: String,
    pub downloads: Option<u64>,
}

impl Dependency {
    /// Get the dependency name.
    pub fn name(&self) -> (r: &str)
        ensures
            r@ == self.name@,
    {
        self.name.as_str()
    }

    /// Get the version requirement.
    pub fn version_req(&self) -> (r: &str)
        ensures
            r@ == self.req@,
    {
        self.req.as_str()
    }
}

/// Download statistics.
#[derive(Debug, Clone, PartialEq)]
pub struct DownloadStats {
    /// Total all-time downloads.
    pub total: u64,
    /// Per-version download statistics.
    pub versions: Vec<VersionDownload>,
}

/// Download stats for a specific version.
#[derive(Debug, Clone, PartialEq)]
pub struct VersionDownload {
    pub version: String,
    pub downloads: u64,
    /// Timestamp (Unix seconds).
    pub date: i64,
}

/// Crate owner information.
#[derive(Debug, Clone, PartialEq)]
pub struct Owner {
    pub id: u64,
    pub login: String,
    pub name: Option<String>,
    pub email: Option<String>,
    pub avatar: Option<String>,
    pub url: Option<String>,
    /// Either "user" or "team".
    pub kind: String,
}

// Batch processing types

/// Batch input format - supports multiple input shapes.
///
/// The version map is kept as an ordered list of pairs so that the order of
/// queries within one normalization pass is fixed and checkable.
#[derive(Debug, Clone, PartialEq)]
pub enum BatchInput {
    /// Map of crate names to specific versions.
    CrateVersionMap(Vec<(String, String)>),
    /// List of crate names (latest versions will be checked).
    CrateList { crates: Vec<String> },
    /// Advanced operations format.
    Operations { operations: Vec<BatchOperation> },
}

/// A single batch operation.
#[derive(Debug, Clone, PartialEq)]
pub struct BatchOperation {
    /// The target(s) for this operation.
    pub target: BatchTarget,
    /// The operation to perform.
    pub operation: String,
}

/// Target for batch operations.
#[derive(Debug, Clone, PartialEq)]
pub enum BatchTarget {
    /// Single crate with optional version.
    Single { crate_name: String, version: Option<String> },
    /// Multiple crates.
    Multiple { crates: Vec<String> },
}

/// Mathematical content of [`BatchInput`].
pub ghost enum BatchInputView {
    CrateVersionMap(Seq<(Seq<char>, Seq<char>)>),
    CrateList(Seq<Seq<char>>),
    Operations(Seq<BatchOperationView>),
}

/// Mathematical content of [`BatchOperation`].
pub ghost struct BatchOperationView {
    pub target: BatchTargetView,
    pub operation: Seq<char>,
}

/// Mathematical content of [`BatchTarget`].
pub ghost enum BatchTargetView {
    Single { crate_name: Seq<char>, version: Option<Seq<char>> },
    Multiple { crates: Seq<Seq<char>> },
}

impl View for BatchTarget {
    type V = BatchTargetView;

    open spec fn view(&self) -> BatchTargetView {
        match self {
            BatchTarget::Single { crate_name, version } => BatchTargetView::Single {
                crate_name: crate_name@,
                version: opt_str_view(*version),
            },
            BatchTarget::Multiple { crates } => BatchTargetView::Multiple {
                crates: crates.deep_view(),
            },
        }
    }
}

impl View for BatchOperation {
    type V = BatchOperationView;

    open spec fn view(&self) -> BatchOperationView {
        BatchOperationView { target: self.target@, operation: self.operation@ }
    }
}

impl View for BatchInput {
    type V = BatchInputView;

    open spec fn view(&self) -> BatchInputView {
        match self {
            BatchInput::CrateVersionMap(pairs) => BatchInputView::CrateVersionMap(
                pairs.deep_view(),
            ),
            BatchInput::CrateList { crates } => BatchInputView::CrateList(crates.deep_view()),
            BatchInput::Operations { operations } => BatchInputView::Operations(
                Seq::new(operations@.len(), |i: int| operations@[i]@),
            ),
        }
    }
}

/// Result of checking a single crate.
#[derive(Debug, PartialEq)]
pub struct CrateCheckResult {
    pub crate_name: String,
    pub exists: bool,
    pub latest_version: Option<String>,
    pub requested_version: Option<String>,
    pub version_exists: Option<bool>,
    pub error: Option<String>,
    pub info: Option<CrateInfo>,
}

/// Mathematical content of [`CrateCheckResult`].
pub ghost struct CrateCheckResultView {
    pub crate_name: Seq<char>,
    pub exists: bool,
    pub latest_version: Option<Seq<char>>,
    pub requested_version: Option<Seq<char>>,
    pub version_exists: Option<bool>,
    pub error: Option<Seq<char>>,
    pub info: Option<CrateInfoView>,
}

impl View for CrateCheckResult {
    type V = CrateCheckResultView;

    open spec fn view(&self) -> CrateCheckResultView {
        CrateCheckResultView {
            crate_name: self.crate_name@,
            exists: self.exists,
            latest_version: opt_str_view(self.latest_version),
            requested_version: opt_str_view(self.requested_version),
            version_exists: self.version_exists,
            error: opt_str_view(self.error),
            info: match self.info {
                Some(i) => Some(i@),
                None => None,
            },
        }
    }
}

impl DeepView for CrateCheckResult {
    type V = CrateCheckResultView;

    open spec fn deep_view(&self) -> CrateCheckResultView {
        self.view()
    }
}

impl Clone for CrateCheckResult {
    fn clone(&self) -> (res: Self)
        ensures
            res@ == self@,
    {
        CrateCheckResult {
            crate_name: self.crate_name.clone(),
            exists: self.exists,
            latest_version: self.latest_version.clone(),
            requested_version: self.requested_version.clone(),
            version_exists: self.version_exists,
            error: self.error.clone(),
            info: match &self.info {
                Some(i) => Some(i.clone()),
                None => None,
            },
        }
    }
}

/// A result counts as successful iff its error is unset and the crate exists.
pub open spec fn is_successful(r: CrateCheckResultView) -> bool {
    r.error is None && r.exists
}

/// Overall batch processing result.
#[derive(Debug, PartialEq)]
pub struct BatchResult {
    pub results: Vec<CrateCheckResult>,
    pub total_processed: usize,
    pub successful: usize,
    pub failed: usize,
    pub processing_time_ms: u64,
}

// Server API types

/// Request format for the batch API endpoint.
#[derive(Debug)]
pub struct BatchRequest {
    /// The batch input data.
    pub input: BatchInput,
    /// Processing options.
    pub options: BatchOptions,
}

/// Options for batch processing.
#[derive(Debug, Clone, PartialEq)]
pub struct BatchOptions {
    /// Include detailed crate information.
    pub include_details: bool,
    /// Process requests in parallel.
    pub parallel: bool,
    /// Timeout for the entire batch operation.
    pub timeout_seconds: u64,
    /// Maximum number of concurrent requests.
    pub max_concurrent: usize,
}

/// Default timeout for a batch operation, in seconds.
pub fn default_timeout() -> (r: u64)
    ensures
        r == 30,
{
    30
}

/// Default bound on concurrent requests within a batch.
pub fn default_concurrency() -> (r: usize)
    ensures
        r == 10,
{
    10
}

impl Default for BatchOptions {
    fn default() -> (r: Self)
        ensures
            !r.include_details,
            !r.parallel,
            r.timeout_seconds == 30,
            r.max_concurrent == 10,
    {
        BatchOptions {
            include_details: false,
            parallel: false,
            timeout_seconds: default_timeout(),
            max_concurrent: default_concurrency(),
        }
    }
}

/// Response format for the batch API endpoint.
#[derive(Debug)]
pub struct BatchResponse {
    pub request_id: String,
    pub status: String,
    /// The batch processing result.
    pub result: BatchResult,
}

/// Health check response.
#[derive(Debug, Clone, PartialEq)]
pub struct HealthResponse {
    pub status: String,
    /// Timestamp (Unix seconds).
    pub timestamp: i64,
    pub version: String,
    pub uptime_seconds: u64,
}

/// Search request parameters.
#[derive(Debug, Clone, PartialEq)]
pub struct SearchParams {
    pub q: String,
    pub limit: Option<usize>,
    pub offset: Option<usize>,
    pub sort: Option<String>,
}

/// Metrics response.
///
/// The average response time is reported in whole milliseconds (the
/// cumulative time divided by the request count, rounded down).
#[derive(Debug, Clone, PartialEq)]
pub struct MetricsResponse {
    pub requests_total: u64,
    pub requests_successful: u64,
    pub requests_failed: u64,
    pub average_response_time_ms: u64,
    pub cache_hits: u64,
    pub cache_misses: u64,
    pub uptime_seconds: u64,
}

// Registry API response types

/// Response from the registry for crate information.
#[derive(Debug)]
pub struct CrateResponse {
    pub crate_info: CrateApiInfo,
    pub versions: Option<Vec<Version>>,
    pub keywords: Option<Vec<Keyword>>,
    pub categories: Option<Vec<Category>>,
}

/// Crate information as the registry reports it.
#[derive(Debug, Clone, PartialEq)]
pub struct CrateApiInfo {
    pub name: String,
    pub description: Option<String>,
    pub newest_version: String,
    pub downloads: u64,
    /// Creation timestamp (Unix seconds).
    pub created_at: i64,
    /// Last update timestamp (Unix seconds).
    pub updated_at: i64,
    pub homepage: Option<String>,
    pub repository: Option<String>,
    pub documentation: Option<String>,
    pub max_upload_size: Option<u64>,
    pub recent_downloads: Option<u64>,
}

/// Keyword information.
#[derive(Debug, Clone, PartialEq)]
pub struct Keyword {
    pub keyword: String,
}

/// Category information.
#[derive(Debug, Clone, PartialEq)]
pub struct Category {
    pub category: String,
}

/// Response from the registry versions endpoint.
#[derive(Debug)]
pub struct VersionsResponse {
    pub versions: Vec<Version>,
}

/// Response from the registry search endpoint.
#[derive(Debug)]
pub struct SearchResponse {
    pub crates: Vec<CrateSearchResult>,
    pub meta: SearchMeta,
}

/// Search metadata.
#[derive(Debug, Clone, PartialEq)]
pub struct SearchMeta {
    pub total: u32,
}

/// Response from the dependencies endpoint.
#[derive(Debug)]
pub struct DependenciesResponse {
    pub dependencies: Vec<Dependency>,
}

/// Response from the downloads endpoint.
#[derive(Debug)]
pub struct DownloadsResponse {
    pub version_downloads: Vec<VersionDownloadApi>,
    pub meta: DownloadsMeta,
}

/// Downloads metadata.
#[derive(Debug)]
pub struct DownloadsMeta {
    pub extra_downloads: Vec<ExtraDownload>,
}

/// Version download info as the registry reports it (date kept textual).
#[derive(Debug, Clone, PartialEq)]
pub struct VersionDownloadApi {
    pub version: String,
    pub downloads: u64,
    pub date: String,
}

/// Extra download information (date kept textual).
#[derive(Debug, Clone, PartialEq)]
pub struct ExtraDownload {
    pub date: String,
    pub downloads: u64,
}

/// The keyword names of a keyword list, in order.
pub open spec fn spec_keyword_names(ks: Seq<Keyword>) -> Seq<Seq<char>>
    decreases ks.len(),
{
    if ks.len() == 0 {
        Seq::empty()
    } else {
        spec_keyword_names(ks.drop_last()) + seq![ks.last().keyword@]
    }
}

/// The category names of a category list, in order.
pub open spec fn spec_category_names(cs: Seq<Category>) -> Seq<Seq<char>>
    decreases cs.len(),
{
    if cs.len() == 0 {
        Seq::empty()
    } else {
        spec_category_names(cs.drop_last()) + seq![cs.last().category@]
    }
}

/// Assemble a crate information record from a full registry response: the
/// core fields come from the crate record, and the keyword and category
/// lists are populated from their own sections when present.
pub fn crate_info_from_response(response: CrateResponse) -> (r: CrateInfo)
    ensures
        r@.name == response.crate_info.name@,
        r@.description == opt_str_view(response.crate_info.description),
        r@.newest_version == response.crate_info.newest_version@,
        r@.downloads == response.crate_info.downloads,
        r@.created_at == response.crate_info.created_at,
        r@.updated_at == response.crate_info.updated_at,
        r@.homepage == opt_str_view(response.crate_info.homepage),
        r@.repository == opt_str_view(response.crate_info.repository),
        r@.documentation == opt_str_view(response.crate_info.documentation),
        r@.max_upload_size == response.crate_info.max_upload_size,
        r@.keywords == (match response.keywords {
            Some(ks) => spec_keyword_names(ks@),
            None => Seq::<Seq<char>>::empty(),
        }),
        r@.categories == (match response.categories {
            Some(cs) => spec_category_names(cs@),
            None => Seq::<Seq<char>>::empty(),
        }),
        r@.license is None,
        r@.yanked is None,
        r@.links is None,
{
    let mut info = CrateInfo::from(response.crate_info);
    match response.keywords {
        Some(ks) => {
            let mut keywords: Vec<String> = Vec::new();
            let mut i: usize = 0;
            while i < ks.len()
                invariant
                    0 <= i <= ks@.len(),
                    keywords.deep_view() =~= spec_keyword_names(ks@.subrange(0, i as int)),
                decreases ks@.len() - i,
            {
                proof {
                    assert(ks@.subrange(0, i + 1).drop_last() =~= ks@.subrange(0, i as int));
                    assert(ks@.subrange(0, i + 1).last() == ks@[i as int]);
                }
                keywords.push(ks[i].keyword.clone());
                proof {
                    assert(keywords.deep_view() =~= spec_keyword_names(ks@.subrange(0, i + 1)));
                }
                i = i + 1;
            }
            proof {
                assert(ks@.subrange(0, ks@.len() as int) =~= ks@);
            }
            info.keywords = keywords;
        },
        None => {},
    }
    match response.categories {
        Some(cs) => {
            let mut categories: Vec<String> = Vec::new();
            let mut i: usize = 0;
            while i < cs.len()
                invariant
                    0 <= i <= cs@.len(),
                    categories.deep_view() =~= spec_category_names(cs@.subrange(0, i as int)),
                decreases cs@.len() - i,
            {
                proof {
                    assert(cs@.subrange(0, i + 1).drop_last() =~= cs@.subrange(0, i as int));
                    assert(cs@.subrange(0, i + 1).last() == cs@[i as int]);
                }
                categories.push(cs[i].category.clone());
                proof {
                    assert(categories.deep_view() =~= spec_category_names(cs@.subrange(0, i + 1)));
                }
                i = i + 1;
            }
            proof {
                assert(cs@.subrange(0, cs@.len() as int) =~= cs@);
            }
            info.categories = categories;
        },
        None => {},
    }
    info
}

impl vstd::std_specs::convert::FromSpecImpl<CrateApiInfo> for CrateInfo {
    // The conversion allocates fresh empty vectors, so no single spec-level
    // value can name the result; the contract lives on `from` itself.
    open spec fn obeys_from_spec() -> bool {
        false
    }

    open spec fn from_spec(t: CrateApiInfo) -> CrateInfo {
        vstd::pervasive::arbitrary()
    }
}

impl From<CrateApiInfo> for CrateInfo {
    fn from(api_info: CrateApiInfo) -> (r: Self)
        ensures
            r@.name == api_info.name@,
            r@.description == opt_str_view(api_info.description),
            r@.newest_version == api_info.newest_version@,
            r@.downloads == api_info.downloads,
            r@.created_at == api_info.created_at,
            r@.updated_at == api_info.updated_at,
            r@.homepage == opt_str_view(api_info.homepage),
            r@.repository == opt_str_view(api_info.repository),
            r@.documentation == opt_str_view(api_info.documentation),
            r@.keywords == Seq::<Seq<char>>::empty(),
            r@.categories == Seq::<Seq<char>>::empty(),
            r@.max_upload_size == api_info.max_upload_size,
            r@.license is None,
            r@.yanked is None,
            r@.links is None,
    {
        let r = CrateInfo {
            name: api_info.name,
            description: api_info.description,
            newest_version: api_info.newest_version,
            downloads: api_info.downloads,
            created_at: api_info.created_at,
            updated_at: api_info.updated_at,
            homepage: api_info.homepage,
            repository: api_info.repository,
            documentation: api_info.documentation,
            keywords: Vec::new(),
            categories: Vec::new(),
            max_upload_size: api_info.max_upload_size,
            license: None,
            yanked: None,
            links: None,
        };
        proof {
            assert(r.keywords.deep_view() =~= Seq::<Seq<char>>::empty());
            assert(r.categories.deep_view() =~= Seq::<Seq<char>>::empty());
        }
        r
    }
}

} // verus!
