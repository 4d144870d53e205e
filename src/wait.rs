use crate::bus::Bus;
use crate::msg::{msg_eq, Msg};
use vstd::prelude::*;

verus! {

/// Whether a waiter for `set` wakes on `m`: on any event of the set, and on
/// `ShutDown` always.
pub open spec fn wakes(set: Seq<Msg>, m: Msg) -> bool {
    m is ShutDown || exists|j: int| 0 <= j < set.len() && msg_eq(#[trigger] set[j], m)
}

/// Whether `m` is one of the awaited events, `ShutDown` included.
pub fn is_awaited(set: &Vec<Msg>, m: &Msg) -> (r: bool)
    ensures
        r == wakes(set@, *m),
{
    if let Msg::ShutDown = m {
        return true;
    }
    let mut i: usize = 0;
    while i < set.len()
        invariant
            i <= set.len(),
            !(*m is ShutDown),
            forall|j: int| 0 <= j < i ==> !msg_eq(#[trigger] set@[j], *m),
        decreases set.len() - i,
    {
        if set[i].eq(m) {
            return true;
        }
        i += 1;
    }
    false
}

/// Takes the events waiting for subscription `id` up to and including the
/// first one awaited, and returns that one; with none awaited among them, all
/// are taken and `None` comes back.
pub fn take_until(bus: &mut Bus, id: usize, set: &Vec<Msg>) -> (r: Option<Msg>)
    requires
        old(bus).wf(),
        old(bus).is_live(id as int),
    ensures
        final(bus).wf(),
        final(bus).history() == old(bus).history(),
        final(bus).is_live(id as int),
        final(bus).cursors().len() == old(bus).cursors().len(),
        forall|j: int|
            0 <= j < old(bus).cursors().len() && j != id ==> final(bus).cursors()[j]
                == old(bus).cursors()[j],
        match r {
            None => {
                &&& final(bus).pending(id as int).len() == 0
                &&& forall|k: int|
                    0 <= k < old(bus).pending(id as int).len() ==> !wakes(
                        set@,
                        #[trigger] old(bus).pending(id as int)[k],
                    )
            },
            Some(m) => exists|n: int|
                0 <= n < old(bus).pending(id as int).len() && #[trigger] old(bus).pending(id as int)[n] == m
                    && wakes(set@, m) && (forall|k: int|
                    0 <= k < n ==> !wakes(set@, #[trigger] old(bus).pending(id as int)[k]))
                    && final(bus).pending(id as int) == old(bus).pending(id as int).skip(n + 1),
        },
{
    let ghost start = old(bus).pending(id as int);
    let ghost mut n: int = 0;
    loop
        invariant
            start == old(bus).pending(id as int),
            bus.wf(),
            bus.is_live(id as int),
            bus.history() == old(bus).history(),
            bus.cursors().len() == old(bus).cursors().len(),
            forall|j: int|
                0 <= j < old(bus).cursors().len() && j != id ==> bus.cursors()[j]
                    == old(bus).cursors()[j],
            0 <= n <= start.len(),
            bus.pending(id as int) == start.skip(n),
            forall|k: int| 0 <= k < n ==> !wakes(set@, #[trigger] start[k]),
        decreases bus.pending(id as int).len(),
    {
        let ghost before = bus.pending(id as int);
        match bus.try_recv(id) {
            None => {
                assert(n == start.len());
                return None;
            },
            Some(m) => {
                assert(m == start[n]);
                assert(bus.pending(id as int) =~= start.skip(n + 1));
                if is_awaited(set, &m) {
                    return Some(m);
                }
                proof {
                    n = n + 1;
                }
            },
        }
    }
}

} // verus!
