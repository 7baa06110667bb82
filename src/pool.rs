use vstd::prelude::*;

verus! {

/// A rotating collection of interchangeable transport clients.
///
/// The cursor is kept reduced modulo the number of clients, so the client
/// handed out by `next` is always `clients[cursor]`.
pub struct TransportPool<C> {
    clients: Vec<C>,
    idx: usize,
}

impl<C: Clone> TransportPool<C> {
    /// The clients of the pool, in insertion order.
    pub closed spec fn clients(&self) -> Seq<C> {
        self.clients@
    }

    /// The position of the client that the next call to `next` hands out.
    pub closed spec fn cursor(&self) -> int {
        self.idx as int
    }

    pub open spec fn wf(&self) -> bool {
        self.clients().len() == 0 || (0 <= self.cursor() < self.clients().len())
    }

    /// The relation between the pool before and after one call to `next`
    /// that handed out the client at position `picked`.
    pub open spec fn next_step(before: Self, after: Self, picked: int) -> bool {
        &&& before.clients().len() > 0
        &&& after.clients() == before.clients()
        &&& picked == before.cursor()
        &&& after.cursor() == (before.cursor() + 1) % (before.clients().len() as int)
    }

    pub fn new(clients: Vec<C>) -> (r: Self)
        ensures
            r.wf(),
            r.clients() == clients@,
            r.cursor() == 0,
    {
        TransportPool { clients, idx: 0 }
    }

    pub fn len(&self) -> (r: usize)
        ensures
            r == self.clients().len(),
    {
        self.clients.len()
    }

    /// Hands out a clone of the client under the cursor and advances the
    /// cursor; `None` only when the pool holds no client.
    pub fn next(&mut self) -> (r: Option<C>)
        requires
            old(self).wf(),
        ensures
            final(self).wf(),
            old(self).clients().len() == 0 ==> r is None && *final(self) == *old(self),
            old(self).clients().len() > 0 ==> {
                &&& r is Some
                &&& Self::next_step(*old(self), *final(self), old(self).cursor())
                &&& vstd::pervasive::cloned(old(self).clients()[old(self).cursor()], r->0)
            },
    {
        let len = self.clients.len();
        if len > 0 {
            let idx = self.idx;
            self.idx = if idx + 1 < len { idx + 1 } else { 0 };
            proof {
                assert(self.idx == (idx + 1) % (len as int)) by {
                    if idx + 1 < len {
                        vstd::arithmetic::div_mod::lemma_small_mod((idx + 1) as nat, len as nat);
                    } else {
                        vstd::arithmetic::div_mod::lemma_mod_self_0(len as int);
                    }
                }
            }
            let client = self.clients[idx].clone();
            Some(client)
        } else {
            None
        }
    }
}

/// Round robin: from a fresh pool of `m` clients, the `k`-th of `m`
/// consecutive calls to `next` hands out the `k`-th client, so each client is
/// handed out exactly once and in insertion order, and the call after them
/// hands out the first client again.
pub proof fn lemma_round_robin<C: Clone>(states: Seq<TransportPool<C>>, picks: Seq<int>)
    requires
        states.len() == picks.len() + 1,
        states[0].cursor() == 0,
        picks.len() == states[0].clients().len() + 1,
        forall|i: int|
            0 <= i < picks.len() ==> #[trigger] TransportPool::<C>::next_step(
                states[i],
                states[i + 1],
                picks[i],
            ),
    ensures
        forall|k: int| 0 <= k < states[0].clients().len() ==> #[trigger] picks[k] == k,
        picks[states[0].clients().len() as int] == 0,
{
    let m = states[0].clients().len() as int;
    assert(TransportPool::<C>::next_step(states[0int], states[0int + 1], picks[0int]));
    assert forall|k: int| 0 <= k <= m implies #[trigger] states[k].cursor() == k % m
        && states[k].clients() == states[0].clients() by {
        lemma_cursor_after(states, picks, k);
    }
    assert forall|k: int| 0 <= k < m implies #[trigger] picks[k] == k by {
        assert(TransportPool::<C>::next_step(states[k], states[k + 1], picks[k]));
        assert(states[k].cursor() == k % m && states[k].clients() == states[0].clients());
        vstd::arithmetic::div_mod::lemma_small_mod(k as nat, m as nat);
    }
    assert(TransportPool::<C>::next_step(states[m], states[m + 1], picks[m]));
    assert(states[m].cursor() == m % m && states[m].clients() == states[0].clients());
    vstd::arithmetic::div_mod::lemma_mod_self_0(m);
}

/// Round robin, for any number of calls: from a fresh pool of `m` clients,
/// with no swap in between, the `k`-th call to `next` (counting from zero)
/// hands out the client at position `k % m`, and leaves the clients as they
/// were.
pub proof fn lemma_round_robin_any<C: Clone>(states: Seq<TransportPool<C>>, picks: Seq<int>)
    requires
        states.len() == picks.len() + 1,
        picks.len() > 0,
        states[0].cursor() == 0,
        forall|i: int|
            0 <= i < picks.len() ==> #[trigger] TransportPool::<C>::next_step(
                states[i],
                states[i + 1],
                picks[i],
            ),
    ensures
        states[0].clients().len() > 0,
        forall|k: int|
            0 <= k < picks.len() ==> #[trigger] picks[k] == k % (states[0].clients().len() as int)
                && states[k].clients() == states[0].clients(),
{
    let m = states[0].clients().len() as int;
    assert(TransportPool::<C>::next_step(states[0int], states[0int + 1], picks[0int]));
    assert forall|k: int| 0 <= k < picks.len() implies #[trigger] picks[k] == k % m
        && states[k].clients() == states[0].clients() by {
        lemma_cursor_after(states, picks, k);
        assert(TransportPool::<C>::next_step(states[k], states[k + 1], picks[k]));
    }
}

proof fn lemma_cursor_after<C: Clone>(states: Seq<TransportPool<C>>, picks: Seq<int>, k: int)
    requires
        states.len() == picks.len() + 1,
        states[0].cursor() == 0,
        states[0].clients().len() > 0,
        forall|i: int|
            0 <= i < picks.len() ==> #[trigger] TransportPool::<C>::next_step(
                states[i],
                states[i + 1],
                picks[i],
            ),
        0 <= k < states.len(),
    ensures
        states[k].clients() == states[0].clients(),
        states[k].cursor() == k % (states[0].clients().len() as int),
    decreases k,
{
    let m = states[0].clients().len() as int;
    if k == 0 {
        vstd::arithmetic::div_mod::lemma_small_mod(0, m as nat);
    } else {
        let i = k - 1;
        lemma_cursor_after(states, picks, i);
        assert(TransportPool::<C>::next_step(states[i], states[i + 1], picks[i]));
        vstd::arithmetic::div_mod::lemma_add_mod_noop_right(1, i, m);
    }
}

} // verus!
