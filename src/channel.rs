//! A bounded broadcast channel: one producer, any number of receivers, and when a
//! receiver falls behind, its oldest unread events give way to new ones.
use vstd::prelude::*;

use crate::error::Error;

verus! {

/// The last `n` elements of `s`, or all of `s` when it is shorter.
pub open spec fn keep_last<T>(s: Seq<T>, n: nat) -> Seq<T> {
    if s.len() <= n {
        s
    } else {
        s.subrange(s.len() - n, s.len() as int)
    }
}

/// What a receiver holds unread after the events `s` were sent, one at a time, to a
/// receiver that held `p` unread, with room for `n` unread events.
pub open spec fn after_sends<T>(p: Seq<T>, s: Seq<T>, n: nat) -> Seq<T>
    decreases s.len(),
{
    if s.len() == 0 {
        p
    } else {
        keep_last(after_sends(p, s.drop_last(), n).push(s.last()), n)
    }
}

/// The producer side of a broadcast channel together with the unread events of each
/// receiver. Receivers are numbered from zero in the order in which they subscribed.
pub struct Channel<T> {
    capacity: usize,
    /// The most recent events, oldest first; never more than `capacity` of them.
    log: Vec<T>,
    /// For each receiver, how many of the newest events in `log` it has not read;
    /// `None` once the receiver was released.
    unread: Vec<Option<usize>>,
    closed: bool,
}

impl<T> Channel<T> {
    /// The channel's internal consistency.
    pub closed spec fn wf(&self) -> bool {
        &&& self.capacity >= 1
        &&& self.log@.len() <= self.capacity
        &&& forall|i: int|
            0 <= i < self.unread@.len() ==> match #[trigger] self.unread@[i] {
                Some(u) => u <= self.log@.len(),
                None => true,
            }
    }

    /// How many unread events each receiver can hold.
    pub closed spec fn spec_capacity(&self) -> nat {
        self.capacity as nat
    }

    /// How many receivers have subscribed so far, released ones included.
    pub closed spec fn receiver_count(&self) -> nat {
        self.unread@.len()
    }

    /// Whether receiver `id` subscribed and was not released.
    pub closed spec fn is_receiver(&self, id: nat) -> bool {
        id < self.unread@.len() && self.unread@[id as int] is Some
    }

    /// The events that receiver `id` has not read yet, oldest first.
    pub closed spec fn pending(&self, id: nat) -> Seq<T> {
        let u = self.unread@[id as int]->0;
        self.log@.subrange(self.log@.len() - u, self.log@.len() as int)
    }

    /// Whether the producer side is gone.
    pub closed spec fn is_closed(&self) -> bool {
        self.closed
    }

    /// A channel in which each receiver holds up to `capacity` unread events.
    pub fn new(capacity: usize) -> (r: Channel<T>)
        requires
            capacity >= 1,
        ensures
            r.wf(),
            r.spec_capacity() == capacity,
            r.receiver_count() == 0,
            !r.is_closed(),
    {
        Channel { capacity, log: Vec::new(), unread: Vec::new(), closed: false }
    }

    /// How many unread events each receiver can hold.
    pub fn capacity(&self) -> (r: usize)
        ensures
            r == self.spec_capacity(),
    {
        self.capacity
    }

    /// Whether the producer side is gone.
    pub fn closed(&self) -> (r: bool)
        ensures
            r == self.is_closed(),
    {
        self.closed
    }

    /// A new receiver. It sees only the events sent from now on.
    pub fn subscribe(&mut self) -> (id: usize)
        requires
            old(self).wf(),
        ensures
            final(self).wf(),
            id == old(self).receiver_count(),
            final(self).receiver_count() == old(self).receiver_count() + 1,
            final(self).is_receiver(id as nat),
            final(self).pending(id as nat) == Seq::<T>::empty(),
            subscribed(*old(self), *final(self), id as nat),
            final(self).spec_capacity() == old(self).spec_capacity(),
            final(self).is_closed() == old(self).is_closed(),
            forall|j: nat|
                j < old(self).receiver_count() ==> (final(self).is_receiver(j) == old(self).is_receiver(j) && final(self).pending(j) == old(self).pending(j)),
    {
        let id = self.unread.len();
        self.unread.push(Some(0));
        proof {
            assert(self.log@.subrange(self.log@.len() as int, self.log@.len() as int) =~= Seq::<
                T,
            >::empty());
        }
        id
    }

    /// Gives up receiver `id`: it holds no events any more and gets no new ones.
    pub fn release(&mut self, id: usize)
        requires
            old(self).wf(),
            id < old(self).receiver_count(),
        ensures
            final(self).wf(),
            !final(self).is_receiver(id as nat),
            final(self).receiver_count() == old(self).receiver_count(),
            final(self).spec_capacity() == old(self).spec_capacity(),
            final(self).is_closed() == old(self).is_closed(),
            forall|j: nat|
                j < old(self).receiver_count() && j != id ==> (final(self).is_receiver(j) == old(self).is_receiver(j) && final(self).pending(j) == old(self).pending(j)),
    {
        self.unread.set(id, None);
    }

    /// Ends the producer side. Receivers still read what they hold, then learn that the
    /// channel is closed.
    pub fn close(&mut self)
        requires
            old(self).wf(),
        ensures
            final(self).wf(),
            closed_from(*old(self), *final(self)),
            final(self).is_closed(),
            final(self).receiver_count() == old(self).receiver_count(),
            final(self).spec_capacity() == old(self).spec_capacity(),
            forall|j: nat|
                j < old(self).receiver_count() ==> (final(self).is_receiver(j) == old(self).is_receiver(j) && final(self).pending(j) == old(self).pending(j)),
    {
        self.closed = true;
    }
}

/// Sending `v` to a receiver with `u` of the `log` unread leaves it with
/// `min(u + 1, n)` of the new log unread, and that is the old unread part with `v`
/// appended, cut to its last `n` events.
proof fn lemma_send_pending<T>(log: Seq<T>, v: T, u: nat, n: nat)
    requires
        n >= 1,
        log.len() <= n,
        u <= log.len(),
    ensures
        ({
            let new_log = keep_last(log.push(v), n);
            let nu = if u + 1 <= n {
                u + 1
            } else {
                n
            };
            &&& new_log.len() <= n
            &&& nu <= new_log.len()
            &&& new_log.subrange(new_log.len() - nu, new_log.len() as int) == keep_last(
                log.subrange(log.len() - u, log.len() as int).push(v),
                n,
            )
        }),
{
    let new_log = keep_last(log.push(v), n);
    let nu: nat = if u + 1 <= n {
        u + 1
    } else {
        n
    };
    let old_pending = log.subrange(log.len() - u, log.len() as int);
    assert(old_pending.push(v) =~= log.push(v).subrange(log.len() - u, (log.len() + 1) as int));
    assert(new_log.subrange(new_log.len() - nu, new_log.len() as int) =~= keep_last(
        old_pending.push(v),
        n,
    ));
}

proof fn lemma_keep_last_push<T>(x: Seq<T>, e: T, n: nat)
    requires
        n >= 1,
    ensures
        keep_last(keep_last(x, n).push(e), n) == keep_last(x.push(e), n),
{
    assert(keep_last(keep_last(x, n).push(e), n) =~= keep_last(x.push(e), n));
}

/// Drop-oldest: from a receiver holding `p`, sending the events `s` one at a time
/// leaves it holding the last `n` events of `p` followed by `s`, in order.
pub proof fn law_drop_oldest<T>(p: Seq<T>, s: Seq<T>, n: nat)
    requires
        n >= 1,
        p.len() <= n,
    ensures
        after_sends(p, s, n) == keep_last(p + s, n),
    decreases s.len(),
{
    if s.len() == 0 {
        assert(p + s =~= p);
    } else {
        law_drop_oldest(p, s.drop_last(), n);
        lemma_keep_last_push(p + s.drop_last(), s.last(), n);
        assert((p + s.drop_last()).push(s.last()) =~= p + s);
    }
}

/// A receiver that reads nothing while more events than its capacity `n` are sent
/// then holds exactly the `n` most recent of them, in the order they were sent.
pub proof fn law_overflow_keeps_newest<T>(s: Seq<T>, n: nat)
    requires
        n >= 1,
        s.len() > n,
    ensures
        after_sends(Seq::<T>::empty(), s, n) == s.subrange(s.len() - n, s.len() as int),
        after_sends(Seq::<T>::empty(), s, n).len() == n,
{
    law_drop_oldest(Seq::<T>::empty(), s, n);
    assert(Seq::<T>::empty() + s =~= s);
}

/// A receiver sees no event sent before it subscribed: what it holds after the events
/// `s` is a suffix of `s` that does not depend on earlier events, and as long as
/// one event was sent, the newest one is among them.
pub proof fn law_subscriber_sees_only_later<T>(s: Seq<T>, n: nat)
    requires
        n >= 1,
    ensures
        after_sends(Seq::<T>::empty(), s, n) == keep_last(s, n),
        s.len() > 0 ==> after_sends(Seq::<T>::empty(), s, n).len() > 0 && after_sends(
            Seq::<T>::empty(),
            s,
            n,
        ).last() == s.last(),
{
    law_drop_oldest(Seq::<T>::empty(), s, n);
    assert(Seq::<T>::empty() + s =~= s);
}

/// `new` is `old` after a new receiver `id` subscribed.
pub open spec fn subscribed<T>(old: Channel<T>, new: Channel<T>, id: nat) -> bool {
    &&& new.wf()
    &&& id == old.receiver_count()
    &&& new.receiver_count() == old.receiver_count() + 1
    &&& new.is_receiver(id)
    &&& new.pending(id) == Seq::<T>::empty()
    &&& new.spec_capacity() == old.spec_capacity()
    &&& new.is_closed() == old.is_closed()
    &&& forall|j: nat|
        j < old.receiver_count() ==> (new.is_receiver(j) == old.is_receiver(j) && new.pending(j)
            == old.pending(j))
}

/// `new` is `old` after `v` was broadcast.
pub open spec fn sent<T>(old: Channel<T>, new: Channel<T>, v: T) -> bool {
    &&& new.wf()
    &&& new.receiver_count() == old.receiver_count()
    &&& new.spec_capacity() == old.spec_capacity()
    &&& new.is_closed() == old.is_closed()
    &&& forall|j: nat|
        j < old.receiver_count() ==> {
            &&& new.is_receiver(j) == old.is_receiver(j)
            &&& old.is_receiver(j) && !old.is_closed() ==> new.pending(j) == keep_last(
                old.pending(j).push(v),
                old.spec_capacity(),
            )
            &&& old.is_closed() ==> new.pending(j) == old.pending(j)
        }
}

/// `new` is `old` closed, with every receiver's unread events kept.
pub open spec fn closed_from<T>(old: Channel<T>, new: Channel<T>) -> bool {
    &&& new.wf()
    &&& new.is_closed()
    &&& new.receiver_count() == old.receiver_count()
    &&& new.spec_capacity() == old.spec_capacity()
    &&& forall|j: nat|
        j < old.receiver_count() ==> (new.is_receiver(j) == old.is_receiver(j) && new.pending(j)
            == old.pending(j))
}

/// `new` is `old` after receiver `id` tried to read one event and got `r`.
pub open spec fn received<T: Clone>(
    old: Channel<T>,
    new: Channel<T>,
    id: nat,
    r: Result<Option<T>, Error>,
) -> bool {
    &&& new.wf()
    &&& new.receiver_count() == old.receiver_count()
    &&& new.spec_capacity() == old.spec_capacity()
    &&& new.is_closed() == old.is_closed()
    &&& new.is_receiver(id) == old.is_receiver(id)
    &&& forall|j: nat|
        j < old.receiver_count() && j != id ==> (new.is_receiver(j) == old.is_receiver(j)
            && new.pending(j) == old.pending(j))
    &&& !old.is_receiver(id) ==> r == Err::<Option<T>, Error>(Error::Closed)
    &&& old.is_receiver(id) && old.pending(id).len() > 0 ==> {
        &&& r matches Ok(Some(v)) && vstd::pervasive::cloned(old.pending(id)[0], v)
        &&& new.pending(id) == old.pending(id).drop_first()
    }
    &&& old.is_receiver(id) && old.pending(id).len() == 0 ==> {
        &&& new.pending(id) == old.pending(id)
        &&& old.is_closed() ==> r == Err::<Option<T>, Error>(Error::Closed)
        &&& !old.is_closed() ==> r == Ok::<Option<T>, Error>(None)
    }
}

/// A receiver of a closed channel that has read everything it held reads
/// `Error::Closed`: it is told the channel is gone instead of waiting for ever.
pub proof fn law_closed_and_drained_reads_closed<T: Clone>(
    old: Channel<T>,
    new: Channel<T>,
    id: nat,
    r: Result<Option<T>, Error>,
)
    requires
        old.is_closed(),
        old.pending(id).len() == 0,
        received(old, new, id, r),
    ensures
        r == Err::<Option<T>, Error>(Error::Closed),
{
}

impl<T> Channel<T> {
    /// Broadcasts `v`: each receiver gets it as its newest unread event, and a receiver
    /// that already holds as many unread events as the capacity drops its oldest one.
    /// Once the channel is closed, nothing is sent. Never blocks, never fails.
    pub fn send(&mut self, v: T)
        requires
            old(self).wf(),
        ensures
            final(self).wf(),
            sent(*old(self), *final(self), v),
            final(self).receiver_count() == old(self).receiver_count(),
            final(self).spec_capacity() == old(self).spec_capacity(),
            final(self).is_closed() == old(self).is_closed(),
            forall|j: nat|
                j < old(self).receiver_count() ==> {
                    &&& final(self).is_receiver(j) == old(self).is_receiver(j)
                    &&& old(self).is_receiver(j) && !old(self).is_closed() ==> final(self).pending(j)
                        == keep_last(old(self).pending(j).push(v), old(self).spec_capacity())
                    &&& old(self).is_closed() ==> final(self).pending(j) == old(self).pending(j)
                },
    {
        if self.closed {
            return ;
        }
        let ghost old_log = self.log@;
        let ghost old_unread = self.unread@;
        if self.log.len() == self.capacity {
            self.log.remove(0);
        }
        self.log.push(v);
        proof {
            assert(self.log@ =~= keep_last(old_log.push(v), self.capacity as nat));
        }
        let mut i: usize = 0;
        while i < self.unread.len()
            invariant
                self.capacity >= 1,
                self.capacity == old(self).capacity,
                self.closed == old(self).closed,
                !self.closed,
                old_log == old(self).log@,
                old_unread == old(self).unread@,
                self.log@ == keep_last(old_log.push(v), self.capacity as nat),
                old_log.len() <= self.capacity,
                self.unread@.len() == old_unread.len(),
                i <= self.unread@.len(),
                forall|j: int|
                    0 <= j < old_unread.len() ==> match #[trigger] old_unread[j] {
                        Some(u) => u <= old_log.len(),
                        None => true,
                    },
                forall|j: int|
                    0 <= j < i ==> #[trigger] self.unread@[j] == match old_unread[j] {
                        Some(u) => Some(
                            if u + 1 <= self.capacity {
                                (u + 1) as usize
                            } else {
                                self.capacity
                            },
                        ),
                        None => None,
                    },
                forall|j: int| i <= j < self.unread@.len() ==> #[trigger] self.unread@[j] == old_unread[j],
            decreases self.unread@.len() - i,
        {
            match self.unread[i] {
                Some(u) => {
                    let nu: usize = if u < self.capacity {
                        u + 1
                    } else {
                        self.capacity
                    };
                    self.unread.set(i, Some(nu));
                },
                None => {},
            }
            i = i + 1;
        }
        proof {
            assert forall|j: nat| j < old_unread.len() && old_unread[j as int] is Some implies {
                let u = old_unread[j as int]->0;
                &&& self.pending(j) == keep_last(
                    old_log.subrange(old_log.len() - u, old_log.len() as int).push(v),
                    self.capacity as nat,
                )
                &&& self.unread@[j as int]->0 <= self.log@.len()
            } by {
                let u = old_unread[j as int]->0;
                lemma_send_pending(old_log, v, u as nat, self.capacity as nat);
            }
        }
    }

    /// How many receivers have subscribed so far, released ones included.
    pub fn receiver_len(&self) -> (r: usize)
        ensures
            r == self.receiver_count(),
    {
        self.unread.len()
    }

    /// Whether receiver `id` subscribed and was not released.
    pub fn is_subscribed(&self, id: usize) -> (r: bool)
        ensures
            r == self.is_receiver(id as nat),
    {
        id < self.unread.len() && self.unread[id].is_some()
    }

    /// How many events receiver `id` has not read yet.
    pub fn pending_len(&self, id: usize) -> (r: usize)
        requires
            self.wf(),
            self.is_receiver(id as nat),
        ensures
            r == self.pending(id as nat).len(),
    {
        match self.unread[id] {
            Some(u) => u,
            None => 0,
        }
    }
}

impl<T: Clone> Channel<T> {
    /// Reads the oldest unread event of receiver `id` without waiting: `Ok(Some(..))` with
    /// a clone of it, `Ok(None)` when there is none yet, `Err(Error::Closed)` when there is
    /// none and there will be none (the channel is closed or the receiver was released).
    pub fn try_recv(&mut self, id: usize) -> (r: Result<Option<T>, Error>)
        requires
            old(self).wf(),
            id < old(self).receiver_count(),
        ensures
            final(self).wf(),
            received(*old(self), *final(self), id as nat, r),
            final(self).receiver_count() == old(self).receiver_count(),
            final(self).spec_capacity() == old(self).spec_capacity(),
            final(self).is_closed() == old(self).is_closed(),
            final(self).is_receiver(id as nat) == old(self).is_receiver(id as nat),
            forall|j: nat|
                j < old(self).receiver_count() && j != id ==> (final(self).is_receiver(j) == old(self).is_receiver(j) && final(self).pending(j) == old(self).pending(j)),
            !old(self).is_receiver(id as nat) ==> r == Err::<Option<T>, Error>(Error::Closed),
            old(self).is_receiver(id as nat) && old(self).pending(id as nat).len() > 0 ==> {
                &&& r matches Ok(Some(v)) && vstd::pervasive::cloned(
                    old(self).pending(id as nat)[0],
                    v,
                )
                &&& final(self).pending(id as nat) == old(self).pending(id as nat).drop_first()
            },
            old(self).is_receiver(id as nat) && old(self).pending(id as nat).len() == 0 ==> {
                &&& final(self).pending(id as nat) == old(self).pending(id as nat)
                &&& old(self).is_closed() ==> r == Err::<Option<T>, Error>(Error::Closed)
                &&& !old(self).is_closed() ==> r == Ok::<Option<T>, Error>(None)
            },
    {
        match self.unread[id] {
            None => Err(Error::Closed),
            Some(u) => {
                if u > 0 {
                    let k = self.log.len() - u;
                    let v = self.log[k].clone();
                    self.unread.set(id, Some(u - 1));
                    proof {
                        let l = self.log@;
                        assert(l.subrange(l.len() - (u - 1), l.len() as int) =~= l.subrange(
                            l.len() - u,
                            l.len() as int,
                        ).drop_first());
                    }
                    Ok(Some(v))
                } else if self.closed {
                    Err(Error::Closed)
                } else {
                    Ok(None)
                }
            },
        }
    }

    /// Reads every unread event of receiver `id` at once, oldest first, without
    /// waiting. `Err(Error::Closed)` when there is none and there will be none.
    pub fn try_recv_all(&mut self, id: usize) -> (r: Result<Vec<T>, Error>)
        requires
            old(self).wf(),
            id < old(self).receiver_count(),
        ensures
            final(self).wf(),
            final(self).receiver_count() == old(self).receiver_count(),
            final(self).spec_capacity() == old(self).spec_capacity(),
            final(self).is_closed() == old(self).is_closed(),
            final(self).is_receiver(id as nat) == old(self).is_receiver(id as nat),
            forall|j: nat|
                j < old(self).receiver_count() && j != id ==> (final(self).is_receiver(j) == old(self).is_receiver(j) && final(self).pending(j) == old(self).pending(j)),
            !old(self).is_receiver(id as nat) ==> r == Err::<Vec<T>, Error>(Error::Closed),
            old(self).is_receiver(id as nat) && old(self).pending(id as nat).len() == 0
                && old(self).is_closed() ==> r == Err::<Vec<T>, Error>(Error::Closed),
            old(self).is_receiver(id as nat) && (old(self).pending(id as nat).len() > 0 || !old(self).is_closed()) ==> {
                &&& r matches Ok(vs) && vs@.len() == old(self).pending(id as nat).len() && forall|
                    i: int,
                | 0 <= i < vs@.len() ==> vstd::pervasive::cloned(
                    old(self).pending(id as nat)[i],
                    #[trigger] vs@[i],
                )
                &&& final(self).pending(id as nat).len() == 0
            },
    {
        if !self.is_subscribed(id) {
            return Err(Error::Closed);
        }
        let n = self.pending_len(id);
        if n == 0 && self.closed {
            return Err(Error::Closed);
        }
        let ghost p = self.pending(id as nat);
        let mut out: Vec<T> = Vec::new();
        let mut k: usize = 0;
        while k < n
            invariant
                self.wf(),
                k <= n,
                n == p.len(),
                self.is_receiver(id as nat),
                self.pending(id as nat) == p.subrange(k as int, p.len() as int),
                out@.len() == k,
                forall|i: int| 0 <= i < k ==> vstd::pervasive::cloned(p[i], #[trigger] out@[i]),
                self.receiver_count() == old(self).receiver_count(),
                self.capacity == old(self).capacity,
                self.closed == old(self).closed,
                p == old(self).pending(id as nat),
                id < self.receiver_count(),
                forall|j: nat|
                    j < old(self).receiver_count() && j != id ==> (self.is_receiver(j) == old(self).is_receiver(j) && self.pending(j) == old(self).pending(j)),
            decreases n - k,
        {
            let got = self.try_recv(id);
            proof {
                assert(p.subrange(k as int, p.len() as int)[0] == p[k as int]);
                assert(p.subrange(k as int, p.len() as int).drop_first() =~= p.subrange(
                    k + 1,
                    p.len() as int,
                ));
            }
            match got {
                Ok(Some(v)) => {
                    out.push(v);
                },
                _ => {
                    // The receiver still holds `n - k` events, so a read cannot fail.
                    assert(false);
                },
            }
            k = k + 1;
        }
        Ok(out)
    }
}

} // verus!
