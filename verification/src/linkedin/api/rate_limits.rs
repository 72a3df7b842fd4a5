//! Pacing of the API client: the waits of one shuffled round, handed out in
//! turn, for requests that take about `RESPONSE_TIME_MS` each.
use vstd::prelude::*;
use crate::linkedin::rate_limits::{generate_waits, valid_waits};

verus! {

/// Hands out the waits of one shuffled round, moving on before it reads:
/// the first call gives the second wait, and the round wraps around.
pub struct RateLimits {
    profiles_per_hour: u32,
    waits: Vec<u64>,
    current: usize,
}

impl RateLimits {
    /// The assumed duration of one request, in milliseconds.
    pub const RESPONSE_TIME_MS: u32 = 428;

    /// The invariant: `current` indexes the wait handed out last.
    pub closed spec fn wf(&self) -> bool {
        self.current < self.waits@.len()
    }

    pub closed spec fn waits_spec(&self) -> Seq<u64> {
        self.waits@
    }

    pub closed spec fn position(&self) -> nat {
        self.current as nat
    }

    pub closed spec fn profiles_per_hour_spec(&self) -> u32 {
        self.profiles_per_hour
    }

    pub fn new(profiles_per_hour: u32) -> (res: Self)
        requires
            profiles_per_hour * 428 <= u32::MAX,
        ensures
            res.wf(),
            res.position() == 0,
            valid_waits(res.waits_spec(), profiles_per_hour, 428),
            res.profiles_per_hour_spec() == profiles_per_hour,
    {
        let waits = Self::generate_random_waits(profiles_per_hour);
        RateLimits { profiles_per_hour, waits, current: 0 }
    }

    /// The waits `0, 1, ..., n` for the given rate, shuffled; `[0]` when no
    /// rate is set.
    pub fn generate_random_waits(profiles_per_hour: u32) -> (waits: Vec<u64>)
        requires
            profiles_per_hour * 428 <= u32::MAX,
        ensures
            valid_waits(waits@, profiles_per_hour, 428),
    {
        generate_waits(profiles_per_hour, Self::RESPONSE_TIME_MS)
    }

    /// Moves to the next wait, wrapping around after the last, and gives it
    /// in whole seconds.
    pub fn next(&mut self) -> (res: Option<u64>)
        requires
            old(self).wf(),
        ensures
            limits_step(*old(self), *final(self), res),
    {
        let len = self.waits.len();
        let next = self.current + 1;
        if next >= len {
            self.current = 0;
            proof {
                vstd::arithmetic::div_mod::lemma_mod_self_0(self.waits@.len() as int);
            }
        } else {
            self.current = next;
            proof {
                vstd::arithmetic::div_mod::lemma_small_mod(next as nat, self.waits@.len() as nat);
            }
        }
        Some(self.waits[self.current])
    }
}

/// One call of `RateLimits::next`: the position moves on by one (wrapping
/// at the end of the round), the wait at the new position is given, and
/// nothing else changes.
pub open spec fn limits_step(before: RateLimits, after: RateLimits, res: Option<u64>) -> bool {
    &&& after.wf()
    &&& after.position() == (before.position() + 1) % before.waits_spec().len()
    &&& res == Some(after.waits_spec()[after.position() as int])
    &&& after.waits_spec() == before.waits_spec()
    &&& after.profiles_per_hour_spec() == before.profiles_per_hour_spec()
}

/// Law: limits fresh from `new` hand out their round in rotation over any
/// number of calls, starting one past the first wait: call `k` (counting
/// from zero) gives the wait at `(k + 1) % len`, never `None`, so the first
/// wait comes first on call `len - 1`.
pub proof fn lemma_limits_rotation(states: Seq<RateLimits>, results: Seq<Option<u64>>, k: int)
    requires
        states.len() == results.len() + 1,
        states[0].wf(),
        states[0].position() == 0,
        forall|i: int| 0 <= i < results.len() ==> #[trigger] limits_step(states[i], states[i + 1], results[i]),
        0 <= k < results.len(),
    ensures
        results[k] == Some(states[0].waits_spec()[(k + 1) % states[0].waits_spec().len() as int]),
        states[k + 1].position() == (k + 1) % states[0].waits_spec().len() as int,
        states[k + 1].waits_spec() == states[0].waits_spec(),
    decreases k,
{
    let len = states[0].waits_spec().len() as int;
    assert(limits_step(states[k], states[k + 1], results[k]));
    if k == 0 {
        assert(len > 0);
    } else {
        lemma_limits_rotation(states, results, k - 1);
        assert(limits_step(states[k - 1], states[k], results[k - 1]));
        assert(len > 0);
        assert(states[k].position() == k % len);
    }
    if k == 0 {
        vstd::arithmetic::div_mod::lemma_small_mod(0, len as nat);
    }
    vstd::arithmetic::div_mod::lemma_add_mod_noop_right(1, k, len);
}

} // verus!
