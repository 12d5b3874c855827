//! Debounced per-shard statistics sampling.
//!
//! Sampling runs inline in the session loop and is gated by a
//! monotonic-clock debounce, so a high frame rate never raises the
//! sampling rate. The sample itself is a plain record of the
//! transport's connection status (as a dashboard ordinal), whether a
//! recent latency reading exists, and the cache's aggregate counts;
//! exporting it is the caller's business.

use vstd::prelude::*;

use crate::cache::CacheStats;
use crate::session::ShardSession;

verus! {

/// The least time between two statistics samples of one shard.
pub const TELEMETRY_INTERVAL_MS: u64 = 500;

/// The transport's connection lifecycle, as the sampler reads it.
pub enum ConnectionStatus {
    Active,
    Disconnected,
    Identifying,
    Resuming,
    FatallyClosed,
}

/// The dashboard ordinal of a connection status. The order carries
/// meaning: a fatally closed link ranks lowest, an active one highest.
pub open spec fn spec_status_ordinal(status: ConnectionStatus) -> u8 {
    match status {
        ConnectionStatus::Active => 4,
        ConnectionStatus::Disconnected => 1,
        ConnectionStatus::Identifying => 2,
        ConnectionStatus::Resuming => 3,
        ConnectionStatus::FatallyClosed => 0,
    }
}

/// Map a connection status to its dashboard ordinal.
pub fn status_ordinal(status: &ConnectionStatus) -> (r: u8)
    ensures
        r == spec_status_ordinal(*status),
{
    match status {
        ConnectionStatus::Active => 4,
        ConnectionStatus::Disconnected => 1,
        ConnectionStatus::Identifying => 2,
        ConnectionStatus::Resuming => 3,
        ConnectionStatus::FatallyClosed => 0,
    }
}

/// One statistics sample for one shard. A missing latency reading is
/// reported as absent, never as zero.
pub struct ShardStatistics {
    pub connection_status: u8,
    pub latency_present: bool,
    pub emojis: usize,
    pub guilds: usize,
    pub members: usize,
    pub presences: usize,
    pub channels: usize,
    pub roles: usize,
    pub unavailable_guilds: usize,
    pub users: usize,
    pub voice_states: usize,
}

/// Assemble the sample that the caller exports: the status ordinal,
/// whether any recent latency reading exists, and every aggregate
/// count the cache reports.
pub fn shard_statistics(status: &ConnectionStatus, latency_count: usize, stats: &CacheStats) -> (r:
    ShardStatistics)
    ensures
        r.connection_status == spec_status_ordinal(*status),
        r.latency_present == (latency_count > 0),
        r.emojis == 0,
        r.guilds == 0,
        r.members == 0,
        r.presences == 0,
        r.channels == 0,
        r.roles == 0,
        r.unavailable_guilds == 0,
        r.users == 0,
        r.voice_states == 0,
{
    ShardStatistics {
        connection_status: status_ordinal(status),
        latency_present: latency_count > 0,
        emojis: stats.emojis(),
        guilds: stats.guilds(),
        members: stats.members(),
        presences: stats.presences(),
        channels: stats.channels(),
        roles: stats.roles(),
        unavailable_guilds: stats.unavailable_guilds(),
        users: stats.users(),
        voice_states: stats.voice_states(),
    }
}

/// Whether a sample taken last at `last_ms` is due again at `now_ms`.
pub open spec fn sample_due(last_ms: u64, now_ms: u64) -> bool {
    now_ms - last_ms > TELEMETRY_INTERVAL_MS
}

impl ShardSession {
    /// Claim the telemetry slot for the instant `now_ms`: grants at
    /// most one sample per debounce interval, and on a grant arms the
    /// debounce afresh.
    pub fn telemetry_slot(&mut self, now_ms: u64) -> (due: bool)
        requires
            old(self).last_sample_ms <= now_ms,
        ensures
            due == sample_due(old(self).last_sample_ms, now_ms),
            due ==> final(self).last_sample_ms == now_ms,
            !due ==> final(self).last_sample_ms == old(self).last_sample_ms,
            final(self).shard_id == old(self).shard_id,
            final(self).relay_url == old(self).relay_url,
            final(self).is_ready == old(self).is_ready,
            final(self).ready_state == old(self).ready_state,
            final(self).sequence == old(self).sequence,
    {
        if now_ms - self.last_sample_ms > TELEMETRY_INTERVAL_MS {
            self.last_sample_ms = now_ms;
            true
        } else {
            false
        }
    }
}

/// Telemetry samples for one shard are emitted no more often than once
/// per debounce interval, whatever the frame rate: when the slot is
/// granted at `t1` and next granted at `t2`, more than the interval
/// has passed between the two grants.
pub proof fn lemma_samples_debounced(t1: u64, t2: u64)
    requires
        t1 <= t2,
        sample_due(t1, t2),
    ensures
        t2 - t1 > TELEMETRY_INTERVAL_MS,
{
}

} // verus!
