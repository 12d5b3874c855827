//! The entity cache contract, shipped as its degenerate no-op variant.
//!
//! A cache accumulates dispatch events and answers aggregate counts,
//! a ready snapshot for newcomers and a per-entity replay. This stub
//! ignores every event, reports zero for every statistic and replays
//! nothing; it is a valid, if trivial, implementation of the contract.

use vstd::prelude::*;

use crate::json::JsonField;
use crate::json::JsonValue;
use crate::json::lookup;
use crate::json::set_field;

verus! {

/// A dispatch-shaped synthetic payload: `{d, op, t, s}`.
pub struct Payload {
    pub d: Vec<JsonField>,
    pub op: i64,
    pub t: String,
    pub s: u64,
}

/// The no-op cache: caching disabled.
pub struct Guilds;

/// A point-in-time read of the cache's aggregate counts.
pub struct CacheStats;

impl CacheStats {
    pub fn emojis(&self) -> (r: usize)
        ensures
            r == 0,
    {
        0
    }

    pub fn guilds(&self) -> (r: usize)
        ensures
            r == 0,
    {
        0
    }

    pub fn members(&self) -> (r: usize)
        ensures
            r == 0,
    {
        0
    }

    pub fn presences(&self) -> (r: usize)
        ensures
            r == 0,
    {
        0
    }

    pub fn channels(&self) -> (r: usize)
        ensures
            r == 0,
    {
        0
    }

    pub fn roles(&self) -> (r: usize)
        ensures
            r == 0,
    {
        0
    }

    pub fn unavailable_guilds(&self) -> (r: usize)
        ensures
            r == 0,
    {
        0
    }

    pub fn users(&self) -> (r: usize)
        ensures
            r == 0,
    {
        0
    }

    pub fn voice_states(&self) -> (r: usize)
        ensures
            r == 0,
    {
        0
    }
}

/// The next sequence value a synthetic payload is stamped with.
pub open spec fn spec_next_sequence(counter: u64) -> int {
    counter + 1
}

impl Guilds {
    pub fn new() -> (r: Self) {
        Guilds
    }

    pub fn update<T>(&self, _value: T) {
        // no-op: caching disabled
    }

    pub fn stats(&self) -> (r: CacheStats) {
        CacheStats
    }

    /// Stamp the (already rewritten) ready body as a dispatch-shaped
    /// payload, consuming one increment of the shard's sequence
    /// counter; the body's `guilds` member is replaced by an empty
    /// list, every other member is kept.
    pub fn get_ready_payload(&self, ready: Vec<JsonField>, sequence: &mut u64) -> (p: Payload)
        requires
            *old(sequence) < u64::MAX,
        ensures
            *final(sequence) == spec_next_sequence(*old(sequence)),
            p.s == *final(sequence),
            p.op == crate::envelope::OP_DISPATCH,
            p.t@ == "READY"@,
            lookup(p.d@, "guilds"@) matches Some(g) && (g matches JsonValue::Arr(a)
                && a@.len() == 0),
            forall|k: Seq<char>| k != "guilds"@ ==> lookup(p.d@, k) == lookup(ready@, k),
    {
        *sequence += 1;

        let mut d = ready;
        set_field(&mut d, String::from_str("guilds"), JsonValue::Arr(Vec::new()));

        Payload { d, op: crate::envelope::OP_DISPATCH, t: String::from_str("READY"), s: *sequence }
    }

    /// The per-entity replay for a newcomer: this cache knows no
    /// entities, so nothing is replayed and the counter is untouched.
    pub fn get_guild_payloads(&self, sequence: &mut u64) -> (r: Vec<String>)
        ensures
            r@.len() == 0,
            *final(sequence) == *old(sequence),
    {
        let _ = sequence;
        Vec::new()
    }
}


/// Sequence numbers stamped on a shard's synthetic payloads strictly
/// increase and never repeat: every stamping consumes exactly one
/// increment of the shard's counter, so of two successive stampings
/// the later always carries the larger number.
pub proof fn lemma_synthetic_sequence_increases(counter: u64)
    requires
        counter + 2 <= u64::MAX,
    ensures
        spec_next_sequence(counter) < spec_next_sequence(spec_next_sequence(counter) as u64),
{
}

} // verus!
