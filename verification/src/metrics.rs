//! Server metrics: monotone counters for request volume, success and
//! failure, cache hits and misses, and cumulative response time.
//!
//! The counters saturate at `u64::MAX` instead of wrapping, so they never
//! decrease. The surrounding application guards a `ServerMetrics` value
//! with its chosen synchronization when handlers run concurrently.

use vstd::prelude::*;
use crate::sat_add_u64;
use crate::types::MetricsResponse;

verus! {

/// Server metrics counters.
#[derive(Debug, Clone, PartialEq)]
pub struct ServerMetrics {
    pub requests_total: u64,
    pub requests_successful: u64,
    pub requests_failed: u64,
    pub cache_hits: u64,
    pub cache_misses: u64,
    pub total_response_time_ms: u64,
}

impl Default for ServerMetrics {
    fn default() -> (r: Self)
        ensures
            r.requests_total == 0,
            r.requests_successful == 0,
            r.requests_failed == 0,
            r.cache_hits == 0,
            r.cache_misses == 0,
            r.total_response_time_ms == 0,
    {
        ServerMetrics {
            requests_total: 0,
            requests_successful: 0,
            requests_failed: 0,
            cache_hits: 0,
            cache_misses: 0,
            total_response_time_ms: 0,
        }
    }
}

impl ServerMetrics {
    /// Record one finished request: bumps the total and the cumulative
    /// response time, and exactly one of the success or failure counters.
    pub fn record_request(&mut self, success: bool, response_time_ms: u64)
        ensures
            final(self).requests_total == sat_add_u64(old(self).requests_total, 1),
            final(self).total_response_time_ms == sat_add_u64(
                old(self).total_response_time_ms,
                response_time_ms,
            ),
            final(self).requests_successful == (if success {
                sat_add_u64(old(self).requests_successful, 1)
            } else {
                old(self).requests_successful
            }),
            final(self).requests_failed == (if success {
                old(self).requests_failed
            } else {
                sat_add_u64(old(self).requests_failed, 1)
            }),
            final(self).cache_hits == old(self).cache_hits,
            final(self).cache_misses == old(self).cache_misses,
    {
        self.requests_total = self.requests_total.saturating_add(1);
        self.total_response_time_ms = self.total_response_time_ms.saturating_add(response_time_ms);
        if success {
            self.requests_successful = self.requests_successful.saturating_add(1);
        } else {
            self.requests_failed = self.requests_failed.saturating_add(1);
        }
    }

    /// Record a cache hit.
    pub fn record_cache_hit(&mut self)
        ensures
            final(self).cache_hits == sat_add_u64(old(self).cache_hits, 1),
            final(self).cache_misses == old(self).cache_misses,
            final(self).requests_total == old(self).requests_total,
            final(self).requests_successful == old(self).requests_successful,
            final(self).requests_failed == old(self).requests_failed,
            final(self).total_response_time_ms == old(self).total_response_time_ms,
    {
        self.cache_hits = self.cache_hits.saturating_add(1);
    }

    /// Record a cache miss.
    pub fn record_cache_miss(&mut self)
        ensures
            final(self).cache_misses == sat_add_u64(old(self).cache_misses, 1),
            final(self).cache_hits == old(self).cache_hits,
            final(self).requests_total == old(self).requests_total,
            final(self).requests_successful == old(self).requests_successful,
            final(self).requests_failed == old(self).requests_failed,
            final(self).total_response_time_ms == old(self).total_response_time_ms,
    {
        self.cache_misses = self.cache_misses.saturating_add(1);
    }

    /// Snapshot the counters for reporting. The average response time is
    /// the cumulative time divided by the request count (zero before the
    /// first request); uptime is filled in by the caller, which owns the
    /// clock.
    pub fn get_metrics(&self) -> (r: MetricsResponse)
        ensures
            r.requests_total == self.requests_total,
            r.requests_successful == self.requests_successful,
            r.requests_failed == self.requests_failed,
            r.cache_hits == self.cache_hits,
            r.cache_misses == self.cache_misses,
            r.average_response_time_ms == (if self.requests_total > 0 {
                self.total_response_time_ms / self.requests_total
            } else {
                0u64
            }),
            r.uptime_seconds == 0,
    {
        let average = if self.requests_total > 0 {
            self.total_response_time_ms / self.requests_total
        } else {
            0
        };
        MetricsResponse {
            requests_total: self.requests_total,
            requests_successful: self.requests_successful,
            requests_failed: self.requests_failed,
            average_response_time_ms: average,
            cache_hits: self.cache_hits,
            cache_misses: self.cache_misses,
            uptime_seconds: 0,
        }
    }
}

} // verus!
