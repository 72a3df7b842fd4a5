//! Randomised pacing between profile requests.
//!
//! Within one hour a session makes `profiles_per_hour` requests of about
//! `avg_response_time_ms` each; the rest of the hour is spent waiting. The
//! waits are the whole seconds `0, 1, ..., n` in a random order, where `n` is
//! the largest value whose total `n (n + 1) / 2` still fits the time left.
use vstd::prelude::*;
use crate::outside::shuffle_u64s;

verus! {

/// Milliseconds of an hour left after `profiles_per_hour` requests of `avg_ms` each.
pub open spec fn wait_budget_ms(profiles_per_hour: u32, avg_ms: u32) -> int {
    3_600_000 - profiles_per_hour * avg_ms
}

/// The waits `0, 1, ..., n` (in seconds) add up to no more than `budget_ms`.
pub open spec fn fits_budget(n: int, budget_ms: int) -> bool {
    500 * n * (n + 1) <= budget_ms
}

/// `n` is the largest number of seconds whose waits `0..=n` fit the budget
/// (zero when not even the empty wait fits).
pub open spec fn is_longest_wait(n: int, budget_ms: int) -> bool {
    ||| (budget_ms < 0 && n == 0)
    ||| (0 <= n && fits_budget(n, budget_ms) && !fits_budget(n + 1, budget_ms))
}

/// The sequence `0, 1, ..., n`.
pub open spec fn ascending_waits(n: nat) -> Seq<u64> {
    Seq::new(n + 1, |i: int| i as u64)
}

/// The total of the waits `0, 1, ..., n - 1`.
pub open spec fn total_of(s: Seq<u64>) -> int
    decreases s.len(),
{
    if s.len() == 0 { 0 } else { total_of(s.drop_last()) + s.last() }
}

/// What `generate_random_waits` promises of its result.
pub open spec fn valid_waits(w: Seq<u64>, profiles_per_hour: u32, avg_ms: u32) -> bool {
    if profiles_per_hour == 0 {
        w == seq![0u64]
    } else {
        &&& w.len() >= 1
        &&& is_longest_wait(w.len() - 1, wait_budget_ms(profiles_per_hour, avg_ms))
        &&& w.to_multiset() == ascending_waits((w.len() - 1) as nat).to_multiset()
    }
}

proof fn lemma_fits_bound(n: int, budget_ms: int)
    requires
        0 <= n,
        fits_budget(n, budget_ms),
        budget_ms <= 3_600_000,
    ensures
        n <= 84,
{
    if n > 84 {
        assert(500 * n * (n + 1) > 3_600_000) by (nonlinear_arith)
            requires n > 84;
    }
}

/// Fitting is downward closed: every shorter run of waits fits too.
pub proof fn lemma_fits_monotone(m: int, n: int, budget_ms: int)
    requires
        0 <= m <= n,
        fits_budget(n, budget_ms),
    ensures
        fits_budget(m, budget_ms),
{
    assert(500 * m * (m + 1) <= 500 * n * (n + 1)) by (nonlinear_arith)
        requires 0 <= m <= n;
}

/// Only one length is the longest: the contract of the wait generator
/// determines how many waits there are.
pub proof fn lemma_longest_wait_unique(n1: int, n2: int, budget_ms: int)
    requires
        is_longest_wait(n1, budget_ms),
        is_longest_wait(n2, budget_ms),
    ensures
        n1 == n2,
{
    if budget_ms >= 0 {
        assert(fits_budget(0, budget_ms));
        if n1 < n2 {
            lemma_fits_monotone(n1 + 1, n2, budget_ms);
        } else if n2 < n1 {
            lemma_fits_monotone(n2 + 1, n1, budget_ms);
        }
    }
}

/// The waits `0..=n` add up to `n (n + 1) / 2` seconds.
pub proof fn lemma_ascending_total(n: nat)
    requires
        n <= 1000,
    ensures
        2 * total_of(ascending_waits(n)) == n * (n + 1),
    decreases n,
{
    if n > 0 {
        let m = (n - 1) as nat;
        lemma_ascending_total(m);
        assert(ascending_waits(n).drop_last() =~= ascending_waits(m));
        assert(ascending_waits(n).last() == n as u64);
        assert(total_of(ascending_waits(n)) == total_of(ascending_waits(m)) + n);
        assert(n * (n + 1) == m * (m + 1) + 2 * n) by (nonlinear_arith)
            requires m == n - 1;
    } else {
        assert(ascending_waits(0).drop_last() =~= Seq::<u64>::empty());
        assert(total_of(Seq::<u64>::empty()) == 0);
        assert(ascending_waits(0).last() == 0u64);
        assert(total_of(ascending_waits(0)) == 0);
    }
}

/// Law: one full round of waits, `0 + 1 + ... + n` seconds, never exceeds the
/// time an hour leaves after the requests themselves.
pub proof fn lemma_round_within_budget(n: nat, budget_ms: int)
    requires
        budget_ms >= 0,
        budget_ms <= 3_600_000,
        is_longest_wait(n as int, budget_ms),
    ensures
        1000 * total_of(ascending_waits(n)) <= budget_ms,
{
    lemma_fits_bound(n as int, budget_ms);
    lemma_ascending_total(n);
    assert(500 * n * (n + 1) == 500 * (n * (n + 1))) by (nonlinear_arith);
}

/// Successive positions that each move one step on, wrapping at `len`, are
/// the first position plus the number of steps, wrapped.
proof fn lemma_positions_formula(positions: Seq<int>, len: int, j: int)
    requires
        len > 0,
        0 <= j < positions.len(),
        0 <= positions[0] < len,
        forall|i: int| 0 <= i < positions.len() - 1 ==> #[trigger] positions[i + 1] == (positions[i] + 1) % len,
    ensures
        positions[j] == (positions[0] + j) % len,
    decreases j,
{
    if j == 0 {
        vstd::arithmetic::div_mod::lemma_small_mod(positions[0] as nat, len as nat);
    } else {
        lemma_positions_formula(positions, len, j - 1);
        let i = j - 1;
        assert(positions[i + 1] == (positions[i] + 1) % len);
        vstd::arithmetic::div_mod::lemma_add_mod_noop(positions[0] + j - 1, 1, len);
        vstd::arithmetic::div_mod::lemma_mod_twice(positions[0] + j - 1, len);
        vstd::arithmetic::div_mod::lemma_add_mod_noop((positions[0] + j - 1) % len, 1, len);
    }
}

/// Position `t` is among `positions`.
pub open spec fn visited(positions: Seq<int>, t: int) -> bool {
    exists|j: int| 0 <= j < positions.len() && #[trigger] positions[j] == t
}

/// Law: a limiter handing out `len` waits in a row, wherever in the round it
/// starts, gives every wait of the round once: each position of the round
/// is visited.
pub proof fn lemma_round_visits_every_wait(positions: Seq<int>, len: int)
    requires
        len > 0,
        positions.len() == len,
        0 <= positions[0] < len,
        forall|i: int| 0 <= i < positions.len() - 1 ==> #[trigger] positions[i + 1] == (positions[i] + 1) % len,
    ensures
        forall|t: int| 0 <= t < len ==> #[trigger] visited(positions, t),
{
    assert forall|t: int| 0 <= t < len implies #[trigger] visited(positions, t) by {
        let start = positions[0];
        let j: int = if t >= start { t - start } else { t + len - start };
        lemma_positions_formula(positions, len, j);
        if t >= start {
            vstd::arithmetic::div_mod::lemma_small_mod(t as nat, len as nat);
        } else {
            vstd::arithmetic::div_mod::lemma_mod_add_multiples_vanish(t, len);
            vstd::arithmetic::div_mod::lemma_small_mod(t as nat, len as nat);
        }
        assert(positions[j] == t);
    }
}

/// The largest `n` with `fits_budget(n, budget_ms)`, found by counting up.
fn longest_wait(budget_ms: i64) -> (n: u64)
    requires
        budget_ms <= 3_600_000,
    ensures
        is_longest_wait(n as int, budget_ms as int),
        n <= 84,
{
    if budget_ms < 0 {
        return 0;
    }
    let mut n: u64 = 0;
    loop
        invariant
            0 <= budget_ms <= 3_600_000,
            fits_budget(n as int, budget_ms as int),
            n <= 84,
        decreases 85 - n,
    {
        let next = n + 1;
        proof {
            assert(500 * next * (next + 1) <= 500 * 85 * 86) by (nonlinear_arith)
                requires next <= 85;
            assert(500 * next <= 500 * 85) by (nonlinear_arith)
                requires next <= 85;
        }
        let next_cost: u64 = 500 * next * (next + 1);
        if next_cost as i64 > budget_ms {
            return n;
        }
        proof {
            lemma_fits_bound(next as int, budget_ms as int);
        }
        n = next;
    }
}

/// The waits `0, 1, ..., n` for the given rate, shuffled; `[0]` when no rate is set.
pub fn generate_waits(profiles_per_hour: u32, avg_response_time_ms: u32) -> (waits: Vec<u64>)
    requires
        profiles_per_hour * avg_response_time_ms <= u32::MAX,
    ensures
        valid_waits(waits@, profiles_per_hour, avg_response_time_ms),
{
    if profiles_per_hour == 0 {
        let zero: Vec<u64> = vec![0];
        assert(zero@ =~= seq![0u64]);
        return zero;
    }
    let total_request_ms: u32 = profiles_per_hour * avg_response_time_ms;
    let budget_ms: i64 = 3_600_000i64 - total_request_ms as i64;
    let n = longest_wait(budget_ms);
    let mut waits: Vec<u64> = Vec::new();
    let mut i: u64 = 0;
    while i <= n
        invariant
            n <= 84,
            i <= n + 1,
            waits@ == ascending_waits(n as nat).subrange(0, i as int),
        decreases n + 1 - i,
    {
        waits.push(i);
        i = i + 1;
    }
    assert(waits@ =~= ascending_waits(n as nat));
    shuffle_u64s(&mut waits);
    waits
}

/// Hands out the waits of one shuffled round in turn, starting over after the last.
pub struct RateLimiter {
    profiles_per_hour: u32,
    avg_response_time_ms: u32,
    waits: Vec<u64>,
    current: usize,
    end: usize,
}

impl RateLimiter {
    /// The limiter's invariant: `current` indexes the wait handed out next.
    pub closed spec fn wf(&self) -> bool {
        &&& self.end == self.waits@.len()
        &&& self.current < self.end
    }

    pub closed spec fn waits_spec(&self) -> Seq<u64> {
        self.waits@
    }

    pub closed spec fn position(&self) -> nat {
        self.current as nat
    }

    pub closed spec fn profiles_per_hour_spec(&self) -> u32 {
        self.profiles_per_hour
    }

    pub closed spec fn avg_response_time_spec(&self) -> u32 {
        self.avg_response_time_ms
    }

    pub fn new(profiles_per_hour: u32, avg_response_time_ms: u32) -> (res: Self)
        requires
            profiles_per_hour * avg_response_time_ms <= u32::MAX,
        ensures
            res.wf(),
            res.position() == 0,
            valid_waits(res.waits_spec(), profiles_per_hour, avg_response_time_ms),
            res.profiles_per_hour_spec() == profiles_per_hour,
            res.avg_response_time_spec() == avg_response_time_ms,
    {
        let waits = Self::generate_random_waits(profiles_per_hour, avg_response_time_ms);
        let end = waits.len();
        RateLimiter { profiles_per_hour, avg_response_time_ms, waits, current: 0, end }
    }

    pub fn generate_random_waits(profiles_per_hour: u32, avg_response_time_ms: u32) -> (waits: Vec<u64>)
        requires
            profiles_per_hour * avg_response_time_ms <= u32::MAX,
        ensures
            valid_waits(waits@, profiles_per_hour, avg_response_time_ms),
    {
        generate_waits(profiles_per_hour, avg_response_time_ms)
    }

    /// The next wait, in whole seconds; the round starts over after its
    /// last wait.
    pub fn next(&mut self) -> (res: Option<u64>)
        requires
            old(self).wf(),
        ensures
            next_step(*old(self), *final(self), res),
    {
        let current = self.current;
        let new = current + 1;
        if new >= self.end {
            self.current = 0;
            proof {
                vstd::arithmetic::div_mod::lemma_mod_self_0(self.end as int);
            }
        } else {
            self.current = new;
            proof {
                vstd::arithmetic::div_mod::lemma_small_mod(new as nat, self.end as nat);
            }
        }
        Some(self.waits[current])
    }
}

/// One call of `RateLimiter::next`: it gives the wait at the limiter's
/// position, moves the position on by one (wrapping at the end of the
/// round) and changes nothing else.
pub open spec fn next_step(before: RateLimiter, after: RateLimiter, res: Option<u64>) -> bool {
    &&& after.wf()
    &&& res == Some(before.waits_spec()[before.position() as int])
    &&& after.position() == (before.position() + 1) % before.waits_spec().len()
    &&& after.waits_spec() == before.waits_spec()
    &&& after.profiles_per_hour_spec() == before.profiles_per_hour_spec()
    &&& after.avg_response_time_spec() == before.avg_response_time_spec()
}

/// Law: a limiter fresh from `new` hands out its round in rotation over any
/// number of calls: call `k` (counting from zero) gives the wait at
/// `k % len`, never `None`, and leaves the limiter at `(k + 1) % len`.
pub proof fn lemma_limiter_rotation(states: Seq<RateLimiter>, results: Seq<Option<u64>>, k: int)
    requires
        states.len() == results.len() + 1,
        states[0].wf(),
        states[0].position() == 0,
        forall|i: int| 0 <= i < results.len() ==> #[trigger] next_step(states[i], states[i + 1], results[i]),
        0 <= k < results.len(),
    ensures
        results[k] == Some(states[0].waits_spec()[k % states[0].waits_spec().len() as int]),
        states[k + 1].position() == (k + 1) % states[0].waits_spec().len() as int,
        states[k + 1].waits_spec() == states[0].waits_spec(),
    decreases k,
{
    let len = states[0].waits_spec().len() as int;
    assert(next_step(states[k], states[k + 1], results[k]));
    if k == 0 {
        assert(len > 0);
        vstd::arithmetic::div_mod::lemma_small_mod(0, len as nat);
    } else {
        lemma_limiter_rotation(states, results, k - 1);
        assert(next_step(states[k - 1], states[k], results[k - 1]));
        assert(len > 0);
        assert(states[k].position() == k % len);
    }
    vstd::arithmetic::div_mod::lemma_add_mod_noop_right(1, k, len);
}

} // verus!
