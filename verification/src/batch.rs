//! Batch normalization, execution bookkeeping and aggregation.
//!
//! A batch request arrives in one of three shapes, is normalized into an
//! ordered sequence of per-package queries, and each query is answered by
//! the single-item checker (consulting the response cache first). The
//! executor's bookkeeping lives in [`BatchExecution`]: results are written
//! into a slot per query, by index, so the output order always matches the
//! input order no matter in which order concurrent checks complete.

use vstd::prelude::*;
use vstd::string::*;
use crate::cache::{
    spec_cache_after_lookup, spec_cache_after_set, spec_cache_lookup, ResponseCache,
};
use crate::error::CrateCheckerError;
use crate::metrics::ServerMetrics;
use crate::sat_add_u64;
use crate::types::{
    is_successful, opt_str_view, BatchInput, BatchInputView, BatchOperationView, BatchResponse,
    BatchResult, BatchTargetView, CrateCheckResult, CrateCheckResultView,
};
use crate::utils::validate_batch_input;

verus! {

/// One normalized unit of batch work: a package name and an optional
/// requested version, where the literal value "latest" means "no specific
/// version constraint".
#[derive(Debug, PartialEq)]
pub struct PackageQuery {
    pub name: String,
    pub requested_version: Option<String>,
}

/// Mathematical content of [`PackageQuery`].
pub ghost struct QueryView {
    pub name: Seq<char>,
    pub requested_version: Option<Seq<char>>,
}

impl View for PackageQuery {
    type V = QueryView;

    open spec fn view(&self) -> QueryView {
        QueryView { name: self.name@, requested_version: opt_str_view(self.requested_version) }
    }
}

impl DeepView for PackageQuery {
    type V = QueryView;

    open spec fn deep_view(&self) -> QueryView {
        self.view()
    }
}

impl Clone for PackageQuery {
    fn clone(&self) -> (res: Self)
        ensures
            res@ == self@,
    {
        PackageQuery { name: self.name.clone(), requested_version: self.requested_version.clone() }
    }
}

/// The queries of a list of plain names: one unconstrained query per name,
/// in order.
pub open spec fn spec_name_queries(names: Seq<Seq<char>>) -> Seq<QueryView>
    decreases names.len(),
{
    if names.len() == 0 {
        Seq::empty()
    } else {
        spec_name_queries(names.drop_last()) + seq![
            QueryView { name: names.last(), requested_version: None },
        ]
    }
}

/// The queries of a version map: one query per entry, the version kept as
/// written, in map order.
pub open spec fn spec_pair_queries(pairs: Seq<(Seq<char>, Seq<char>)>) -> Seq<QueryView>
    decreases pairs.len(),
{
    if pairs.len() == 0 {
        Seq::empty()
    } else {
        spec_pair_queries(pairs.drop_last()) + seq![
            QueryView { name: pairs.last().0, requested_version: Some(pairs.last().1) },
        ]
    }
}

/// The queries one batch operation expands to: a single target gives one
/// query with its version kept as written; a multiple target gives one
/// unconstrained query per name, in list order.
pub open spec fn spec_op_queries(op: BatchOperationView) -> Seq<QueryView> {
    match op.target {
        BatchTargetView::Single { crate_name, version } => seq![
            QueryView { name: crate_name, requested_version: version },
        ],
        BatchTargetView::Multiple { crates } => spec_name_queries(crates),
    }
}

/// The queries an operation list expands to, in list order.
pub open spec fn spec_ops_queries(ops: Seq<BatchOperationView>) -> Seq<QueryView>
    decreases ops.len(),
{
    if ops.len() == 0 {
        Seq::empty()
    } else {
        spec_ops_queries(ops.drop_last()) + spec_op_queries(ops.last())
    }
}

/// The normalized query sequence of a batch input: version-map entries in
/// map order with their versions kept as written ("latest" included),
/// name-list entries in list order with no version constraint, operations
/// expanded in list order.
pub open spec fn spec_normalize(input: BatchInputView) -> Seq<QueryView> {
    match input {
        BatchInputView::CrateVersionMap(pairs) => spec_pair_queries(pairs),
        BatchInputView::CrateList(names) => spec_name_queries(names),
        BatchInputView::Operations(ops) => spec_ops_queries(ops),
    }
}

proof fn lemma_pair_queries_len(pairs: Seq<(Seq<char>, Seq<char>)>)
    ensures
        spec_pair_queries(pairs).len() == pairs.len(),
    decreases pairs.len(),
{
    if pairs.len() > 0 {
        lemma_pair_queries_len(pairs.drop_last());
    }
}

proof fn lemma_name_queries_len(names: Seq<Seq<char>>)
    ensures
        spec_name_queries(names).len() == names.len(),
    decreases names.len(),
{
    if names.len() > 0 {
        lemma_name_queries_len(names.drop_last());
    }
}

/// One query per entry: for a version map or a name list, the normalized
/// query sequence is exactly as long as the input. Together with
/// [`BatchExecution::finish`], which answers every query with one result,
/// a batch summary over such an input has `len(results) ==
/// total_processed == ` the input's entry count.
pub proof fn lemma_normalized_count(input: BatchInputView)
    ensures
        input matches BatchInputView::CrateVersionMap(pairs) ==> spec_normalize(input).len()
            == pairs.len(),
        input matches BatchInputView::CrateList(names) ==> spec_normalize(input).len()
            == names.len(),
{
    match input {
        BatchInputView::CrateVersionMap(pairs) => lemma_pair_queries_len(pairs),
        BatchInputView::CrateList(names) => lemma_name_queries_len(names),
        BatchInputView::Operations(_) => (),
    }
}

/// Normalize a batch input into the ordered sequence of per-package
/// queries, after validating it; a malformed input is rejected before any
/// query is produced, with the validation error.
pub fn normalize(input: &BatchInput) -> (r: Result<Vec<PackageQuery>, CrateCheckerError>)
    ensures
        r is Ok <==> crate::utils::spec_valid_batch_input(input@),
        r matches Ok(qs) ==> qs.deep_view() == spec_normalize(input@),
        r matches Err(e) ==> e is ValidationError,
{
    if let Err(e) = validate_batch_input(input) {
        return Err(e);
    }
    let mut queries: Vec<PackageQuery> = Vec::new();
    match input {
        BatchInput::CrateVersionMap(pairs) => {
            let ghost pv = pairs.deep_view();
            let mut i: usize = 0;
            while i < pairs.len()
                invariant
                    pv == pairs.deep_view(),
                    pv.len() == pairs@.len(),
                    0 <= i <= pairs@.len(),
                    queries.deep_view() =~= spec_pair_queries(pv.subrange(0, i as int)),
                decreases pairs@.len() - i,
            {
                proof {
                    assert(pv.subrange(0, i + 1).drop_last() =~= pv.subrange(0, i as int));
                    assert(pv.subrange(0, i + 1).last() == pv[i as int]);
                    assert(pv[i as int] == (pairs@[i as int].0@, pairs@[i as int].1@));
                }
                let name = pairs[i].0.clone();
                let version = pairs[i].1.clone();
                queries.push(PackageQuery { name, requested_version: Some(version) });
                proof {
                    assert(queries.deep_view() =~= spec_pair_queries(pv.subrange(0, i + 1)));
                }
                i = i + 1;
            }
            proof {
                assert(pv.subrange(0, pv.len() as int) =~= pv);
            }
        },
        BatchInput::CrateList { crates } => {
            let ghost nv = crates.deep_view();
            let mut i: usize = 0;
            while i < crates.len()
                invariant
                    nv == crates.deep_view(),
                    nv.len() == crates@.len(),
                    0 <= i <= crates@.len(),
                    queries.deep_view() =~= spec_name_queries(nv.subrange(0, i as int)),
                decreases crates@.len() - i,
            {
                proof {
                    assert(nv.subrange(0, i + 1).drop_last() =~= nv.subrange(0, i as int));
                    assert(nv.subrange(0, i + 1).last() == nv[i as int]);
                }
                let name = crates[i].clone();
                queries.push(PackageQuery { name, requested_version: None });
                proof {
                    assert(queries.deep_view() =~= spec_name_queries(nv.subrange(0, i + 1)));
                }
                i = i + 1;
            }
            proof {
                assert(nv.subrange(0, nv.len() as int) =~= nv);
            }
        },
        BatchInput::Operations { operations } => {
            let ghost ov = Seq::new(operations@.len(), |k: int| operations@[k]@);
            let mut i: usize = 0;
            while i < operations.len()
                invariant
                    ov == Seq::new(operations@.len(), |k: int| operations@[k]@),
                    ov.len() == operations@.len(),
                    0 <= i <= operations@.len(),
                    queries.deep_view() =~= spec_ops_queries(ov.subrange(0, i as int)),
                decreases operations@.len() - i,
            {
                proof {
                    assert(ov.subrange(0, i + 1).drop_last() =~= ov.subrange(0, i as int));
                    assert(ov.subrange(0, i + 1).last() == ov[i as int]);
                }
                match &operations[i].target {
                    crate::types::BatchTarget::Single { crate_name, version } => {
                        queries.push(
                            PackageQuery {
                                name: crate_name.clone(),
                                requested_version: version.clone(),
                            },
                        );
                        proof {
                            assert(queries.deep_view() =~= spec_ops_queries(
                                ov.subrange(0, i + 1),
                            ));
                        }
                    },
                    crate::types::BatchTarget::Multiple { crates } => {
                        let ghost base = queries.deep_view();
                        let ghost cv = crates.deep_view();
                        let mut j: usize = 0;
                        while j < crates.len()
                            invariant
                                cv == crates.deep_view(),
                                cv.len() == crates@.len(),
                                0 <= j <= crates@.len(),
                                queries.deep_view() =~= base + spec_name_queries(
                                    cv.subrange(0, j as int),
                                ),
                            decreases crates@.len() - j,
                        {
                            proof {
                                assert(cv.subrange(0, j + 1).drop_last() =~= cv.subrange(
                                    0,
                                    j as int,
                                ));
                                assert(cv.subrange(0, j + 1).last() == cv[j as int]);
                            }
                            let ghost prev = queries.deep_view();
                            let name = crates[j].clone();
                            queries.push(PackageQuery { name, requested_version: None });
                            proof {
                                assert(cv[j as int] == crates@[j as int]@);
                                assert(queries.deep_view() =~= prev.push(
                                    QueryView { name: cv[j as int], requested_version: None },
                                ));
                                assert(queries.deep_view() =~= base + spec_name_queries(
                                    cv.subrange(0, j + 1),
                                ));
                            }
                            j = j + 1;
                        }
                        proof {
                            assert(cv.subrange(0, cv.len() as int) =~= cv);
                            assert(queries.deep_view() =~= spec_ops_queries(
                                ov.subrange(0, i + 1),
                            ));
                        }
                    },
                }
                i = i + 1;
            }
            proof {
                assert(ov.subrange(0, ov.len() as int) =~= ov);
            }
        },
    }
    Ok(queries)
}

/// Number of successful results (error unset and the crate exists).
pub open spec fn spec_count_successful(s: Seq<CrateCheckResultView>) -> int
    decreases s.len(),
{
    if s.len() == 0 {
        0
    } else {
        spec_count_successful(s.drop_last()) + if is_successful(s.last()) {
            1int
        } else {
            0int
        }
    }
}

/// Every result is either successful or failed, so the two counts always
/// partition the total.
pub proof fn lemma_success_failed_partition(s: Seq<CrateCheckResultView>)
    ensures
        0 <= spec_count_successful(s) <= s.len(),
    decreases s.len(),
{
    if s.len() > 0 {
        lemma_success_failed_partition(s.drop_last());
    }
}

/// Fold per-item outcomes into a batch summary. A result counts as
/// successful iff its error is unset and the crate exists; everything else
/// counts as failed, so `successful + failed == total_processed ==
/// len(results)`.
pub fn aggregate(results: Vec<CrateCheckResult>, processing_time_ms: u64) -> (r: BatchResult)
    ensures
        r.results@ == results@,
        r.total_processed == results@.len(),
        r.successful == spec_count_successful(results.deep_view()),
        r.failed == results@.len() - spec_count_successful(results.deep_view()),
        r.successful + r.failed == r.total_processed,
        r.processing_time_ms == processing_time_ms,
{
    let ghost dv = results.deep_view();
    let mut successful: usize = 0;
    let mut i: usize = 0;
    while i < results.len()
        invariant
            dv == results.deep_view(),
            dv.len() == results@.len(),
            0 <= i <= results@.len(),
            successful == spec_count_successful(dv.subrange(0, i as int)),
            successful <= i,
        decreases results@.len() - i,
    {
        proof {
            assert(dv.subrange(0, i + 1).drop_last() =~= dv.subrange(0, i as int));
            assert(dv.subrange(0, i + 1).last() == dv[i as int]);
        }
        if results[i].error.is_none() && results[i].exists {
            successful = successful + 1;
        }
        i = i + 1;
    }
    proof {
        assert(dv.subrange(0, dv.len() as int) =~= dv);
        lemma_success_failed_partition(dv);
    }
    let total_processed = results.len();
    let failed = total_processed - successful;
    BatchResult { results, total_processed, successful, failed, processing_time_ms }
}

/// How a batch is executed: one check at a time, or up to `max_in_flight`
/// checks at once.
#[derive(Debug, Clone, PartialEq)]
pub enum ExecutionMode {
    Sequential,
    Concurrent { max_in_flight: usize },
}

/// Bookkeeping of one batch run: a result slot per query, written by query
/// index, never by completion order.
pub struct BatchExecution {
    queries: Vec<PackageQuery>,
    slots: Vec<Option<CrateCheckResult>>,
}

impl BatchExecution {
    /// The normalized queries this run answers.
    pub closed spec fn spec_queries(&self) -> Seq<QueryView> {
        self.queries.deep_view()
    }

    /// The slot contents: one optional result per query.
    pub closed spec fn spec_slots(&self) -> Seq<Option<CrateCheckResultView>> {
        Seq::new(
            self.slots@.len(),
            |i: int|
                match self.slots@[i] {
                    Some(r) => Some(r@),
                    None => None,
                },
        )
    }

    /// There is exactly one slot per query.
    pub open spec fn wf(&self) -> bool {
        self.spec_slots().len() == self.spec_queries().len()
    }

    /// All slots are filled.
    pub open spec fn spec_complete(&self) -> bool {
        forall|i: int| 0 <= i < self.spec_slots().len() ==> self.spec_slots()[i] is Some
    }

    /// Start a run over the given queries, with every slot empty.
    pub fn new(queries: Vec<PackageQuery>) -> (r: Self)
        ensures
            r.wf(),
            r.spec_queries() == queries.deep_view(),
            forall|i: int| 0 <= i < r.spec_slots().len() ==> r.spec_slots()[i] is None,
    {
        let n = queries.len();
        let mut slots: Vec<Option<CrateCheckResult>> = Vec::new();
        let mut i: usize = 0;
        while i < n
            invariant
                0 <= i <= n,
                slots@.len() == i,
                forall|k: int| 0 <= k < i ==> slots@[k] is None,
            decreases n - i,
        {
            slots.push(None);
            i = i + 1;
        }
        BatchExecution { queries, slots }
    }

    /// Number of queries.
    pub fn len(&self) -> (n: usize)
        ensures
            n == self.spec_queries().len(),
    {
        self.queries.len()
    }

    /// The query at an index.
    pub fn query_at(&self, i: usize) -> (q: &PackageQuery)
        requires
            i < self.spec_queries().len(),
        ensures
            q@ == self.spec_queries()[i as int],
    {
        &self.queries[i]
    }

    /// Whether the slot at an index is still empty.
    pub fn slot_open(&self, i: usize) -> (b: bool)
        requires
            self.wf(),
            i < self.spec_queries().len(),
        ensures
            b == (self.spec_slots()[i as int] is None),
    {
        self.slots[i].is_none()
    }

    /// Record the result of the check for query `i`, whatever order the
    /// checks complete in. One call is one step of [`spec_apply_records`],
    /// so a whole run is governed by
    /// [`lemma_completion_order_immaterial`].
    pub fn record(&mut self, i: usize, result: CrateCheckResult)
        requires
            old(self).wf(),
            i < old(self).spec_queries().len(),
        ensures
            final(self).wf(),
            final(self).spec_queries() == old(self).spec_queries(),
            final(self).spec_slots() == old(self).spec_slots().update(i as int, Some(result@)),
    {
        self.slots.set(i, Some(result));
        proof {
            assert(self.spec_slots() =~= old(self).spec_slots().update(i as int, Some(result@)));
        }
    }

    /// Whether every query has its result.
    pub fn is_complete(&self) -> (b: bool)
        requires
            self.wf(),
        ensures
            b == self.spec_complete(),
    {
        let mut i: usize = 0;
        while i < self.slots.len()
            invariant
                self.wf(),
                0 <= i <= self.spec_slots().len(),
                forall|k: int| 0 <= k < i ==> self.spec_slots()[k] is Some,
            decreases self.spec_slots().len() - i,
        {
            if self.slots[i].is_none() {
                proof {
                    assert(self.spec_slots()[i as int] is None);
                }
                return false;
            }
            i = i + 1;
        }
        true
    }

    /// Close the run: hand out the results in query order and fold them
    /// into a summary. The summary covers one result per query, so
    /// `total_processed == len(results) == len(queries)`.
    pub fn finish(self, processing_time_ms: u64) -> (r: BatchResult)
        requires
            self.wf(),
            self.spec_complete(),
        ensures
            r.results.deep_view() =~= Seq::new(
                self.spec_queries().len(),
                |i: int| self.spec_slots()[i]->Some_0,
            ),
            r.total_processed == self.spec_queries().len(),
            r.successful == spec_count_successful(r.results.deep_view()),
            r.failed == r.total_processed - r.successful,
            r.successful + r.failed == r.total_processed,
            r.processing_time_ms == processing_time_ms,
    {
        let ghost slots0 = self.spec_slots();
        let mut slots = self.slots;
        proof {
            assert forall|k: int| 0 <= k < slots@.len() implies ((#[trigger] slots@[k]) matches
                Some(v) && Some(v@) == slots0[k]) by {
                assert(slots0[k] == (match slots@[k] {
                    Some(r) => Some(r@),
                    None => None,
                }));
                assert(slots0[k] is Some);
            }
        }
        let mut results: Vec<CrateCheckResult> = Vec::new();
        let n = slots.len();
        let mut i: usize = 0;
        while i < n
            invariant
                n == slots0.len(),
                slots@.len() == n,
                0 <= i <= n,
                forall|k: int|
                    i <= k < n ==> ((#[trigger] slots@[k]) matches Some(v) && Some(v@)
                        == slots0[k]),
                results.deep_view() =~= Seq::new(i as nat, |k: int| slots0[k]->Some_0),
            decreases n - i,
        {
            let mut slot: Option<CrateCheckResult> = None;
            slots.set_and_swap(i, &mut slot);
            let ghost prev_dv = results.deep_view();
            match slot {
                Some(r) => {
                    proof {
                        assert(Some(r@) == slots0[i as int]);
                    }
                    results.push(r);
                    proof {
                        assert(results.deep_view() =~= prev_dv.push(r@));
                        assert(results.deep_view() =~= Seq::new(
                            (i + 1) as nat,
                            |k: int| slots0[k]->Some_0,
                        ));
                    }
                },
                None => {
                    proof {
                        assert(false);
                    }
                },
            }
            i = i + 1;
        }
        aggregate(results, processing_time_ms)
    }
}

/// What a record sequence leaves in the slots when applied in order: each
/// record writes its result into its own query's slot.
pub open spec fn spec_apply_records(
    slots: Seq<Option<CrateCheckResultView>>,
    records: Seq<(int, CrateCheckResultView)>,
) -> Seq<Option<CrateCheckResultView>>
    decreases records.len(),
{
    if records.len() == 0 {
        slots
    } else {
        spec_apply_records(slots, records.drop_last()).update(
            records.last().0,
            Some(records.last().1),
        )
    }
}

/// The per-index outcome of a record sequence: the value of the last record
/// for that index, if any.
pub open spec fn spec_records_map(records: Seq<(int, CrateCheckResultView)>) -> Map<
    int,
    CrateCheckResultView,
>
    decreases records.len(),
{
    if records.len() == 0 {
        Map::empty()
    } else {
        spec_records_map(records.drop_last()).insert(records.last().0, records.last().1)
    }
}

/// Indices of a record sequence stay inside the slot range.
pub open spec fn spec_records_in_range(
    records: Seq<(int, CrateCheckResultView)>,
    n: int,
) -> bool {
    forall|k: int| 0 <= k < records.len() ==> 0 <= #[trigger] records[k].0 < n
}

proof fn lemma_apply_records_pointwise(
    slots: Seq<Option<CrateCheckResultView>>,
    records: Seq<(int, CrateCheckResultView)>,
)
    requires
        spec_records_in_range(records, slots.len() as int),
    ensures
        spec_apply_records(slots, records).len() == slots.len(),
        forall|i: int|
            0 <= i < slots.len() ==> #[trigger] spec_apply_records(slots, records)[i] == (
            if spec_records_map(records).contains_key(i) {
                Some(spec_records_map(records)[i])
            } else {
                slots[i]
            }),
    decreases records.len(),
{
    if records.len() > 0 {
        lemma_apply_records_pointwise(slots, records.drop_last());
    }
}

/// Order preservation under concurrency: two record sequences that assign
/// the same result to each query index - a sequential pass and any
/// completion order of concurrent checks - leave identical slots, so the
/// result sequence handed out afterwards is equal in content and order.
pub proof fn lemma_completion_order_immaterial(
    slots: Seq<Option<CrateCheckResultView>>,
    a: Seq<(int, CrateCheckResultView)>,
    b: Seq<(int, CrateCheckResultView)>,
)
    requires
        spec_records_in_range(a, slots.len() as int),
        spec_records_in_range(b, slots.len() as int),
        spec_records_map(a) == spec_records_map(b),
    ensures
        spec_apply_records(slots, a) == spec_apply_records(slots, b),
{
    lemma_apply_records_pointwise(slots, a);
    lemma_apply_records_pointwise(slots, b);
    assert(spec_apply_records(slots, a) =~= spec_apply_records(slots, b));
}

/// The cache key of a query: the package name and the requested version,
/// with "latest" standing in when no version was requested.
pub open spec fn spec_cache_key(q: QueryView) -> Seq<char> {
    "crate:"@ + q.name + ":"@ + (match q.requested_version {
        Some(v) => v,
        None => "latest"@,
    })
}

/// Build the cache key of a query.
pub fn cache_key(query: &PackageQuery) -> (k: String)
    ensures
        k@ == spec_cache_key(query@),
{
    let mut k = "crate:".to_owned();
    k.append(query.name.as_str());
    k.append(":");
    match &query.requested_version {
        Some(v) => k.append(v.as_str()),
        None => k.append("latest"),
    }
    k
}

/// Consult the response cache for a query before checking upstream: a hit
/// is counted and returns the cached result so the upstream call is
/// skipped; a miss is counted and returns nothing.
pub fn consult_cache(
    cache: &mut ResponseCache,
    metrics: &mut ServerMetrics,
    query: &PackageQuery,
    now_ms: u64,
) -> (r: Option<CrateCheckResult>)
    ensures
        final(cache).spec_enabled() == old(cache).spec_enabled(),
        final(cache).spec_max_entries() == old(cache).spec_max_entries(),
        final(cache).spec_ttl_seconds() == old(cache).spec_ttl_seconds(),
        (r is Some) == (spec_cache_lookup(
            old(cache).spec_entries(),
            old(cache).spec_enabled(),
            spec_cache_key(query@),
            now_ms,
        ) is Some),
        r matches Some(data) ==> Some(data@) == spec_cache_lookup(
            old(cache).spec_entries(),
            old(cache).spec_enabled(),
            spec_cache_key(query@),
            now_ms,
        ),
        final(cache).spec_entries() == spec_cache_after_lookup(
            old(cache).spec_entries(),
            old(cache).spec_enabled(),
            spec_cache_key(query@),
            now_ms,
        ),
        r is Some ==> (final(metrics).cache_hits == sat_add_u64(old(metrics).cache_hits, 1)
            && final(metrics).cache_misses == old(metrics).cache_misses),
        r is None ==> (final(metrics).cache_misses == sat_add_u64(old(metrics).cache_misses, 1)
            && final(metrics).cache_hits == old(metrics).cache_hits),
        final(metrics).requests_total == old(metrics).requests_total,
        final(metrics).requests_successful == old(metrics).requests_successful,
        final(metrics).requests_failed == old(metrics).requests_failed,
        final(metrics).total_response_time_ms == old(metrics).total_response_time_ms,
{
    let key = cache_key(query);
    let r = cache.get(key.as_str(), now_ms);
    if r.is_some() {
        metrics.record_cache_hit();
    } else {
        metrics.record_cache_miss();
    }
    r
}

/// Store a freshly checked result under the query's key, but only when it
/// is error-free; a result that captured an upstream failure is never
/// cached. A disabled cache stores nothing either way.
pub fn store_check_result(
    cache: &mut ResponseCache,
    query: &PackageQuery,
    result: &CrateCheckResult,
    now_ms: u64,
)
    ensures
        final(cache).spec_enabled() == old(cache).spec_enabled(),
        final(cache).spec_max_entries() == old(cache).spec_max_entries(),
        final(cache).spec_ttl_seconds() == old(cache).spec_ttl_seconds(),
        result@.error is None ==> final(cache).spec_entries() == spec_cache_after_set(
            old(cache).spec_entries(),
            old(cache).spec_enabled(),
            old(cache).spec_max_entries(),
            old(cache).spec_ttl_seconds(),
            spec_cache_key(query@),
            result@,
            now_ms,
        ),
        result@.error is Some ==> final(cache).spec_entries() == old(cache).spec_entries(),
{
    if result.error.is_none() {
        let key = cache_key(query);
        cache.set(key, result, now_ms);
    }
}

/// Relies on uuid::Uuid::new_v4 and its hyphenated `Display` form: a fresh
/// random identifier always renders as 36 characters.
#[verifier::external_body]
fn new_request_id() -> (r: String)
    ensures
        r@.len() == 36,
{
    uuid::Uuid::new_v4().to_string()
}

/// Wrap a finished batch result for the API: a fresh request identifier and
/// the "completed" status.
pub fn make_batch_response(result: BatchResult) -> (r: BatchResponse)
    ensures
        r.request_id@.len() == 36,
        r.status@ == "completed"@,
        r.result == result,
{
    BatchResponse { request_id: new_request_id(), status: "completed".to_owned(), result }
}

} // verus!
