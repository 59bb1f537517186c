//! What is remembered of failed streams: which track may not use the main client for a while, and
//! when the cipher was last healed. Times are nanoseconds on one monotonic clock.
use vstd::prelude::*;

use crate::string_map::StringMap;

verus! {

/// How long a failed main-client stream bars that client for its track: 30 minutes.
pub const WEB_REMIX_BLACKLIST_TTL: u64 = 1_800_000_000_000;

/// How often a self-heal may run: every 5 minutes.
pub const HEAL_COOLDOWN: u64 = 300_000_000_000;

/// The failures of `map` that still count at `now`.
pub open spec fn unexpired(map: Map<Seq<char>, u64>, now: u64) -> Map<Seq<char>, u64> {
    map.restrict(
        Set::new(|id: Seq<char>| map.contains_key(id) && now - map[id] < WEB_REMIX_BLACKLIST_TTL),
    )
}

/// Records a failure at `now`, dropping the expired ones on the way so that the map cannot grow.
pub fn blacklist_insert(map: &mut StringMap<u64>, video_id: &str, now: u64)
    ensures
        final(map)@ == unexpired(old(map)@, now).insert(video_id@, now),
{
    map.retain_since(now, WEB_REMIX_BLACKLIST_TTL);
    map.insert(video_id.to_owned(), now);
}

/// Is the main client still barred for this track? An entry past its time counts as absent.
pub fn blacklist_blocks(map: &StringMap<u64>, video_id: &str, now: u64) -> (r: bool)
    ensures
        r == unexpired(map@, now).contains_key(video_id@),
{
    match map.get(video_id) {
        Some(at) => now < *at || now - *at < WEB_REMIX_BLACKLIST_TTL,
        None => false,
    }
}

/// When the last self-heal was let through.
#[derive(Debug)]
pub struct HealGate {
    pub last: Option<u64>,
}

impl HealGate {
    /// A gate that has let nothing through yet.
    pub fn new() -> (r: Self)
        ensures
            r.last is None,
    {
        HealGate { last: None }
    }

    /// Does the last self-heal still keep others out at `now`?
    pub open spec fn held(self, now: u64) -> bool {
        self.last matches Some(t) && now - t < HEAL_COOLDOWN
    }

    /// What a claim at `now` leaves behind.
    pub open spec fn claimed(self, now: u64) -> HealGate {
        if self.held(now) {
            self
        } else {
            HealGate { last: Some(now) }
        }
    }

    /// What claims at these times leave behind, one after the other.
    pub open spec fn after_claims(self, times: Seq<u64>) -> HealGate
        decreases times.len(),
    {
        if times.len() == 0 {
            self
        } else {
            self.after_claims(times.drop_last()).claimed(times.last())
        }
    }

    /// Of claims at these times, the one at position `i` is let through.
    pub open spec fn lets_through(self, times: Seq<u64>, i: int) -> bool {
        !self.after_claims(times.take(i)).held(times[i])
    }
}

/// Lets one self-heal through, and no other for [`HEAL_COOLDOWN`].
pub fn claim_heal(gate: &mut HealGate, now: u64) -> (r: bool)
    ensures
        r == !old(gate).held(now),
        *final(gate) == old(gate).claimed(now),
{
    if let Some(t) = gate.last {
        if now < t || now - t < HEAL_COOLDOWN {
            return false;
        }
    }
    gate.last = Some(now);
    true
}

} // verus!
