use crate::msg::Msg;
use vstd::prelude::*;

verus! {

/// One subscription: where in the log it joined, how far it has read, and
/// whether its handle is still held.
#[derive(Clone, Copy, Debug)]
pub struct Cursor {
    pub start: usize,
    pub next: usize,
    pub live: bool,
}

/// A broadcast message bus.
///
/// Every published event is appended to one log; each subscription reads the
/// log from the point where it joined, so every subscriber receives each event
/// published after it subscribed exactly once, in publish order, and nothing
/// published before.
pub struct Bus {
    log: Vec<Msg>,
    subs: Vec<Cursor>,
}

/// Why a publish was not accepted.
#[derive(Debug, PartialEq, Eq, Structural, Clone, Copy)]
pub enum SendError {
    /// No subscription is live, so nobody would receive the event.
    NoSubscribers,
}

impl Bus {
    /// Every event accepted so far, in publish order.
    pub closed spec fn history(&self) -> Seq<Msg> {
        self.log@
    }

    /// The subscriptions, by id.
    pub closed spec fn cursors(&self) -> Seq<Cursor> {
        self.subs@
    }

    pub open spec fn wf(&self) -> bool {
        forall|i: int|
            0 <= i < self.cursors().len() ==> #[trigger] self.cursors()[i].start <= self.cursors()[i].next
                <= self.history().len()
    }

    /// Whether `id` names a subscription whose handle is held.
    pub open spec fn is_live(&self, id: int) -> bool {
        0 <= id < self.cursors().len() && self.cursors()[id].live
    }

    pub open spec fn has_subscribers(&self) -> bool {
        exists|i: int| self.is_live(i)
    }

    /// The events that subscription `id` has received so far.
    pub open spec fn received(&self, id: int) -> Seq<Msg> {
        self.history().subrange(self.cursors()[id].start as int, self.cursors()[id].next as int)
    }

    /// The events waiting for subscription `id`.
    pub open spec fn pending(&self, id: int) -> Seq<Msg> {
        self.history().subrange(self.cursors()[id].next as int, self.history().len() as int)
    }

    /// A bus with no subscriptions and no events.
    pub fn new() -> (r: Bus)
        ensures
            r.wf(),
            r.history() == Seq::<Msg>::empty(),
            r.cursors() == Seq::<Cursor>::empty(),
    {
        Bus { log: Vec::new(), subs: Vec::new() }
    }

    /// A fresh subscription that sees the events published from now on.
    pub fn subscribe(&mut self) -> (id: usize)
        requires
            old(self).wf(),
        ensures
            final(self).wf(),
            id == old(self).cursors().len(),
            final(self).history() == old(self).history(),
            final(self).cursors() == old(self).cursors().push(
                (Cursor { start: old(self).history().len() as usize, next: old(self).history().len() as usize, live: true }),
            ),
    {
        let n = self.log.len();
        let id = self.subs.len();
        self.subs.push(Cursor { start: n, next: n, live: true });
        assert(forall|i: int| 0 <= i < old(self).cursors().len() ==> self.cursors()[i] == old(self).cursors()[i]);
        id
    }

    /// Drops subscription `id`: it receives nothing more.
    pub fn unsubscribe(&mut self, id: usize)
        requires
            old(self).wf(),
            id < old(self).cursors().len(),
        ensures
            final(self).wf(),
            final(self).history() == old(self).history(),
            final(self).cursors() == old(self).cursors().update(
                id as int,
                (Cursor { live: false, ..old(self).cursors()[id as int] }),
            ),
    {
        let c = self.subs[id];
        self.subs.set(id, Cursor { live: false, ..c });
    }

    /// Whether any subscription is live.
    pub fn has_live(&self) -> (r: bool)
        ensures
            r == self.has_subscribers(),
    {
        let mut i: usize = 0;
        while i < self.subs.len()
            invariant
                i <= self.subs.len(),
                forall|j: int| 0 <= j < i ==> !self.is_live(j),
            decreases self.subs.len() - i,
        {
            if self.subs[i].live {
                assert(self.is_live(i as int));
                return true;
            }
            i += 1;
        }
        false
    }

    /// Publishes `m` to every live subscription; fails, changing nothing,
    /// when there is none.
    pub fn publish(&mut self, m: Msg) -> (r: Result<(), SendError>)
        requires
            old(self).wf(),
        ensures
            final(self).wf(),
            final(self).cursors() == old(self).cursors(),
            r is Ok <==> old(self).has_subscribers(),
            r is Ok ==> final(self).history() == old(self).history().push(m),
            r is Err ==> final(self).history() == old(self).history(),
    {
        if !self.has_live() {
            return Err(SendError::NoSubscribers);
        }
        self.log.push(m);
        Ok(())
    }

    /// The oldest event waiting for subscription `id`, if any.
    pub fn try_recv(&mut self, id: usize) -> (r: Option<Msg>)
        requires
            old(self).wf(),
            old(self).is_live(id as int),
        ensures
            final(self).wf(),
            final(self).history() == old(self).history(),
            final(self).cursors().len() == old(self).cursors().len(),
            forall|j: int|
                0 <= j < old(self).cursors().len() && j != id ==> final(self).cursors()[j]
                    == old(self).cursors()[j],
            final(self).cursors()[id as int].start == old(self).cursors()[id as int].start,
            final(self).cursors()[id as int].live,
            old(self).pending(id as int).len() == 0 ==> r is None && final(self).cursors()
                == old(self).cursors(),
            old(self).pending(id as int).len() > 0 ==> r == Some(old(self).pending(id as int)[0])
                && final(self).pending(id as int) == old(self).pending(id as int).drop_first(),
    {
        let c = self.subs[id];
        if c.next < self.log.len() {
            let m = self.log[c.next].duplicate();
            self.subs.set(id, Cursor { next: c.next + 1, ..c });
            assert(old(self).cursors()[id as int] == c);
            assert(self.pending(id as int) =~= old(self).pending(id as int).drop_first());
            assert(old(self).pending(id as int)[0] == self.log@[c.next as int]);
            Some(m)
        } else {
            assert(old(self).cursors()[id as int].start <= old(self).cursors()[id as int].next);
            None
        }
    }

    /// Whether subscription `id` is held.
    pub fn live(&self, id: usize) -> (r: bool)
        ensures
            r == self.is_live(id as int),
    {
        id < self.subs.len() && self.subs[id].live
    }

    /// How many events wait for live subscription `id`.
    pub fn pending_len(&self, id: usize) -> (r: usize)
        requires
            self.wf(),
            self.is_live(id as int),
        ensures
            r == self.pending(id as int).len(),
    {
        assert(self.cursors()[id as int].start <= self.cursors()[id as int].next);
        self.log.len() - self.subs[id].next
    }
}

/// Every subscription has received, followed by what waits for it, exactly
/// the events published since it subscribed, each once and in publish order.
pub proof fn lemma_delivery_exact(b: Bus, id: int)
    requires
        b.wf(),
        0 <= id < b.cursors().len(),
    ensures
        b.received(id) + b.pending(id) == b.history().subrange(
            b.cursors()[id].start as int,
            b.history().len() as int,
        ),
{
    let c = b.cursors()[id];
    assert(c.start <= c.next <= b.history().len());
    assert(b.received(id) + b.pending(id) =~= b.history().subrange(
        c.start as int,
        b.history().len() as int,
    ));
}

/// A publish appends the event, once, at the end of what waits for each live
/// subscription, and leaves what each has received as it was.
pub proof fn lemma_publish_reaches_current(b: Bus, after: Bus, m: Msg, id: int)
    requires
        b.wf(),
        after.wf(),
        b.is_live(id),
        after.cursors() == b.cursors(),
        after.history() == b.history().push(m),
    ensures
        after.pending(id) == b.pending(id).push(m),
        after.received(id) == b.received(id),
{
    assert(b.cursors()[id].start <= b.cursors()[id].next);
    assert(after.pending(id) =~= b.pending(id).push(m));
    assert(after.received(id) =~= b.received(id));
}

} // verus!
