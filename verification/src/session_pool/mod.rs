//! A fixed set of sessions handed out one at a time, first in, first out.
//!
//! The pool starts full. `acquire` takes the session that has waited longest;
//! `release` puts a session back at the end. The pool never holds more
//! sessions than it started with.
use vstd::prelude::*;
use std::collections::VecDeque;
use vstd::multiset::Multiset;

verus! {

/// A session taken from the pool; `release` hands it back.
pub struct SessionProxy<SessionType> {
    pub session: Option<SessionType>,
}

impl<SessionType> SessionProxy<SessionType> {
    pub fn new(session: SessionType) -> (res: Self)
        ensures
            res.session == Some(session),
    {
        SessionProxy { session: Some(session) }
    }
}

pub struct SessionPool<SessionType> {
    available_sessions: VecDeque<SessionType>,
    capacity: usize,
}

impl<SessionType> SessionPool<SessionType> {
    /// The sessions waiting in the pool, the longest-waiting first.
    pub closed spec fn available(&self) -> Seq<SessionType> {
        self.available_sessions@
    }

    /// How many sessions the pool was made with.
    pub closed spec fn capacity_spec(&self) -> nat {
        self.capacity as nat
    }

    /// The pool's invariant: it never holds more sessions than it was made with.
    pub open spec fn wf(&self) -> bool {
        self.available().len() <= self.capacity_spec()
    }

    /// A full pool holding `sessions` in their order.
    pub fn new(sessions: Vec<SessionType>) -> (res: Self)
        ensures
            res.wf(),
            res.available() == sessions@,
            res.capacity_spec() == sessions@.len(),
    {
        let capacity = sessions.len();
        let mut available_sessions: VecDeque<SessionType> = VecDeque::new();
        let mut rest = sessions;
        let ghost all = rest@;
        while rest.len() > 0
            invariant
                available_sessions@ + rest@ == all,
            decreases rest@.len(),
        {
            let s = rest.remove(0);
            available_sessions.push_back(s);
            assert(available_sessions@ + rest@ =~= all);
        }
        assert(available_sessions@ =~= all);
        SessionPool { available_sessions, capacity }
    }

    /// Takes the session that has waited longest, `None` when all are out.
    pub fn acquire(&mut self) -> (res: Option<SessionProxy<SessionType>>)
        requires
            old(self).wf(),
        ensures
            final(self).wf(),
            final(self).capacity_spec() == old(self).capacity_spec(),
            old(self).available().len() == 0 ==> res is None && final(self).available() == old(
                self,
            ).available(),
            old(self).available().len() > 0 ==> (res matches Some(p) && p.session == Some(
                old(self).available()[0],
            )) && final(self).available() == old(self).available().drop_first(),
    {
        match self.available_sessions.pop_front() {
            Some(session) => Some(SessionProxy::new(session)),
            None => None,
        }
    }

    /// Puts the proxy's session back at the end of the pool.
    pub fn release(&mut self, session: &mut SessionProxy<SessionType>)
        requires
            old(self).wf(),
            old(session).session is Some,
            old(self).available().len() < old(self).capacity_spec(),
        ensures
            final(self).wf(),
            final(self).capacity_spec() == old(self).capacity_spec(),
            final(self).available() == old(self).available().push(old(session).session.unwrap()),
            final(session).session is None,
    {
        let taken = session.session.take();
        match taken {
            Some(s) => self.available_sessions.push_back(s),
            None => {},
        }
    }

    /// How many sessions are waiting in the pool.
    pub fn available_count(&self) -> (res: usize)
        ensures
            res == self.available().len(),
    {
        self.available_sessions.len()
    }

    /// How many sessions the pool was made with.
    pub fn capacity(&self) -> (res: usize)
        ensures
            res == self.capacity_spec(),
    {
        self.capacity
    }

    /// Whether every session is back in the pool.
    pub fn all_released(&self) -> (res: bool)
        ensures
            res == (self.available().len() == self.capacity_spec()),
    {
        self.available_sessions.len() == self.capacity
    }
}

/// Law: taking a session and giving it back leaves the pool with the same
/// sessions, the one taken now last in line.
pub proof fn lemma_acquire_release_rotates<SessionType>(before: Seq<SessionType>, after_acquire: Seq<SessionType>, taken: SessionType, after_release: Seq<SessionType>)
    requires
        before.len() > 0,
        taken == before[0],
        after_acquire == before.drop_first(),
        after_release == after_acquire.push(taken),
    ensures
        after_release.to_multiset() == before.to_multiset(),
        after_release.len() == before.len(),
        after_release.last() == before[0],
{
    broadcast use vstd::seq_lib::group_seq_properties;
    assert(before =~= seq![before[0]] + before.drop_first());
    vstd::seq_lib::lemma_multiset_commutative(seq![before[0]], before.drop_first());
    vstd::seq_lib::lemma_multiset_commutative(before.drop_first(), seq![before[0]]);
    assert(after_release =~= before.drop_first() + seq![before[0]]);
}

/// The sessions waiting in the pool, together with those held by live
/// proxies, are exactly `all`.
pub open spec fn accounts_for<SessionType>(
    pool: SessionPool<SessionType>,
    held: Multiset<SessionType>,
    all: Multiset<SessionType>,
) -> bool {
    pool.available().to_multiset().add(held) == all
}

/// Law: a new pool accounts for every session it was given, with no proxy
/// live.
pub proof fn lemma_new_pool_accounts<SessionType>(sessions: Seq<SessionType>, pool: SessionPool<SessionType>)
    requires
        pool.available() == sessions,
    ensures
        accounts_for(pool, Multiset::empty(), sessions.to_multiset()),
{
    assert(sessions.to_multiset().add(Multiset::empty()) =~= sessions.to_multiset());
}

/// Law: acquiring keeps every session accounted for: the one handed out
/// leaves the pool and is now held by the new proxy, so the waiting and the
/// held sessions together stay the same, and so does their number.
pub proof fn lemma_acquire_accounts<SessionType>(
    before: SessionPool<SessionType>,
    after: SessionPool<SessionType>,
    proxy: SessionProxy<SessionType>,
    held: Multiset<SessionType>,
    all: Multiset<SessionType>,
)
    requires
        accounts_for(before, held, all),
        before.available().len() > 0,
        proxy.session == Some(before.available()[0]),
        after.available() == before.available().drop_first(),
    ensures
        accounts_for(after, held.insert(proxy.session.unwrap()), all),
        after.available().len() + held.insert(proxy.session.unwrap()).len() == all.len(),
{
    broadcast use vstd::seq_lib::group_to_multiset_ensures;
    broadcast use vstd::multiset::group_multiset_axioms;

    let s = before.available()[0];
    let rest = before.available().drop_first();
    assert(before.available() =~= seq![s] + rest);
    vstd::seq_lib::lemma_multiset_commutative(seq![s], rest);
    assert(seq![s].to_multiset() =~= Multiset::empty().insert(s)) by {
        assert(seq![s] =~= Seq::<SessionType>::empty().push(s));
    }
    assert(rest.to_multiset().add(held.insert(s)) =~= before.available().to_multiset().add(held));
}

/// Law: releasing a proxy's session keeps every session accounted for: it
/// goes back to the pool and is no longer held, so the waiting and the held
/// sessions together stay the same, and so does their number.
pub proof fn lemma_release_accounts<SessionType>(
    before: SessionPool<SessionType>,
    after: SessionPool<SessionType>,
    session: SessionType,
    held: Multiset<SessionType>,
    all: Multiset<SessionType>,
)
    requires
        accounts_for(before, held, all),
        held.count(session) > 0,
        after.available() == before.available().push(session),
    ensures
        accounts_for(after, held.remove(session), all),
        after.available().len() + held.remove(session).len() == all.len(),
{
    broadcast use vstd::seq_lib::group_to_multiset_ensures;
    broadcast use vstd::multiset::group_multiset_axioms;

    assert(after.available().to_multiset() =~= before.available().to_multiset().insert(session));
    assert(after.available().to_multiset().add(held.remove(session)) =~= before.available().to_multiset().add(held));
}

/// Law: while a proxy holds a session, the pool has room for it: a pool
/// that accounts for all its sessions is below capacity, so `release` can
/// always take a live proxy's session back.
pub proof fn lemma_live_proxy_can_release<SessionType>(
    pool: SessionPool<SessionType>,
    session: SessionType,
    held: Multiset<SessionType>,
    all: Multiset<SessionType>,
)
    requires
        accounts_for(pool, held, all),
        all.len() == pool.capacity_spec(),
        held.count(session) > 0,
    ensures
        pool.available().len() < pool.capacity_spec(),
{
    broadcast use vstd::seq_lib::group_to_multiset_ensures;
    broadcast use vstd::multiset::group_multiset_axioms;

    vstd::multiset::lemma_multiset_empty_len(held);
    assert(held.len() > 0);
}

/// One operation on a pool, as the pool's own contracts describe it, with
/// the sessions held by live proxies before and after: an `acquire` that
/// hands out the first waiting session to a new proxy, an `acquire` on an
/// empty pool that changes nothing, or the `release` of a live proxy's
/// session, which leaves that proxy empty.
pub open spec fn pool_step<SessionType>(
    before: SessionPool<SessionType>,
    after: SessionPool<SessionType>,
    held_before: Multiset<SessionType>,
    held_after: Multiset<SessionType>,
) -> bool {
    ||| {
        &&& before.available().len() > 0
        &&& after.available() == before.available().drop_first()
        &&& held_after == held_before.insert(before.available()[0])
    }
    ||| {
        &&& before.available().len() == 0
        &&& after.available() == before.available()
        &&& held_after == held_before
    }
    ||| exists|s: SessionType| {
        &&& held_before.count(s) > 0
        &&& after.available() == before.available().push(s)
        &&& #[trigger] held_before.remove(s) == held_after
    }
}

/// Law: over any run of acquires and releases on a pool made by `new` from
/// `sessions`, at every point the waiting sessions and those held by live
/// proxies together are exactly the starting sessions, each session either
/// waiting or held, and their numbers add up to the starting number.
pub proof fn lemma_pool_run_accounts<SessionType>(
    sessions: Seq<SessionType>,
    pools: Seq<SessionPool<SessionType>>,
    helds: Seq<Multiset<SessionType>>,
    k: int,
)
    requires
        pools.len() == helds.len(),
        pools.len() > 0,
        pools[0].available() == sessions,
        helds[0] == Multiset::<SessionType>::empty(),
        forall|i: int| 0 <= i < pools.len() - 1 ==> #[trigger] pool_step(pools[i], pools[i + 1], helds[i], helds[i + 1]),
        0 <= k < pools.len(),
    ensures
        accounts_for(pools[k], helds[k], sessions.to_multiset()),
        pools[k].available().len() + helds[k].len() == sessions.len(),
    decreases k,
{
    broadcast use vstd::seq_lib::group_to_multiset_ensures;
    broadcast use vstd::multiset::group_multiset_axioms;

    if k == 0 {
        lemma_new_pool_accounts(sessions, pools[0]);
    } else {
        let i = k - 1;
        lemma_pool_run_accounts(sessions, pools, helds, i);
        assert(pool_step(pools[i], pools[i + 1], helds[i], helds[i + 1]));
        let all = sessions.to_multiset();
        if pools[i].available().len() > 0 && pools[k].available() == pools[i].available().drop_first() && helds[k]
            == helds[i].insert(pools[i].available()[0]) {
            let proxy = SessionProxy { session: Some(pools[i].available()[0]) };
            lemma_acquire_accounts(pools[i], pools[k], proxy, helds[i], all);
        } else if pools[i].available().len() == 0 && pools[k].available() == pools[i].available() && helds[k]
            == helds[i] {
        } else {
            let s = choose|s: SessionType| {
                &&& helds[i].count(s) > 0
                &&& pools[k].available() == pools[i].available().push(s)
                &&& #[trigger] helds[i].remove(s) == helds[k]
            };
            lemma_release_accounts(pools[i], pools[k], s, helds[i], all);
        }
    }
    assert(pools[k].available().to_multiset().len() == pools[k].available().len());
    assert(sessions.to_multiset().len() == sessions.len());
}

} // verus!
