use crate::bus::{Bus, SendError};
use crate::msg::Msg;
use crate::shutdown::ShutdownFlag;
use vstd::prelude::*;

verus! {

/// The instruction a browser gets for an event: only reload-class events
/// carry one.
pub open spec fn instruction(m: Msg) -> Option<Seq<char>> {
    match m {
        Msg::Reload(s) => Some(s@),
        _ => None,
    }
}

/// The instructions carried by a sequence of events, in order.
pub open spec fn instructions(ms: Seq<Msg>) -> Seq<Seq<char>>
    decreases ms.len(),
{
    if ms.len() == 0 {
        Seq::<Seq<char>>::empty()
    } else {
        let before = instructions(ms.drop_last());
        match instruction(ms.last()) {
            Some(s) => before.push(s),
            None => before,
        }
    }
}

/// Whether a sequence of events holds a shutdown.
pub open spec fn holds_shutdown(ms: Seq<Msg>) -> bool {
    exists|j: int| 0 <= j < ms.len() && #[trigger] ms[j] is ShutDown
}

/// Publishes the reload instruction, unless shutdown was requested. `Ok(true)`
/// when it was published, `Ok(false)` when shutdown held it back.
pub fn send_reload(flag: &ShutdownFlag, bus: &mut Bus) -> (r: Result<bool, SendError>)
    requires
        old(bus).wf(),
    ensures
        final(bus).wf(),
        final(bus).cursors() == old(bus).cursors(),
        flag.is_set_spec() ==> r == Ok::<bool, SendError>(false) && final(bus).history()
            == old(bus).history(),
        !flag.is_set_spec() && old(bus).has_subscribers() ==> r == Ok::<bool, SendError>(true)
            && final(bus).history().len() == old(bus).history().len() + 1
            && final(bus).history().drop_last() == old(bus).history()
            && instruction(final(bus).history().last()) == Some(crate::msg::reload_token()),
        !flag.is_set_spec() && !old(bus).has_subscribers() ==> r == Err::<bool, SendError>(
            SendError::NoSubscribers,
        ) && final(bus).history() == old(bus).history(),
{
    if flag.is_set() {
        return Ok(false);
    }
    let m = Msg::reload();
    match bus.publish(m) {
        Ok(()) => Ok(true),
        Err(e) => Err(e),
    }
}

/// Everything a browser connection has to do with the events waiting for its
/// subscription: the instructions to push, in order, and whether shutdown
/// came, after which the connection closes.
pub fn forward_pending(bus: &mut Bus, id: usize) -> (r: (Vec<String>, bool))
    requires
        old(bus).wf(),
        old(bus).is_live(id as int),
    ensures
        final(bus).wf(),
        final(bus).history() == old(bus).history(),
        final(bus).is_live(id as int),
        final(bus).pending(id as int).len() == 0,
        final(bus).received(id as int) == old(bus).received(id as int) + old(bus).pending(id as int),
        final(bus).cursors().len() == old(bus).cursors().len(),
        forall|j: int|
            0 <= j < old(bus).cursors().len() && j != id ==> final(bus).cursors()[j]
                == old(bus).cursors()[j],
        r.0@.map_values(|s: String| s@) == instructions(old(bus).pending(id as int)),
        r.1 == holds_shutdown(old(bus).pending(id as int)),
{
    let ghost start = old(bus).pending(id as int);
    let ghost rec = old(bus).received(id as int);
    let mut out: Vec<String> = Vec::new();
    let mut shut = false;
    let ghost mut taken: Seq<Msg> = Seq::empty();
    loop
        invariant
            bus.wf(),
            bus.is_live(id as int),
            bus.history() == old(bus).history(),
            bus.cursors().len() == old(bus).cursors().len(),
            forall|j: int|
                0 <= j < old(bus).cursors().len() && j != id ==> bus.cursors()[j]
                    == old(bus).cursors()[j],
            bus.cursors()[id as int].start == old(bus).cursors()[id as int].start,
            start == old(bus).pending(id as int),
            rec == old(bus).received(id as int),
            taken + bus.pending(id as int) == start,
            bus.received(id as int) == rec + taken,
            out@.map_values(|s: String| s@) == instructions(taken),
            shut == holds_shutdown(taken),
        decreases bus.pending(id as int).len(),
    {
        let ghost before = bus.pending(id as int);
        let ghost b0 = *bus;
        match bus.try_recv(id) {
            None => {
                assert(taken =~= start);
                return (out, shut);
            },
            Some(m) => {
                proof {
                    let t2 = taken.push(m);
                    assert(t2.drop_last() =~= taken);
                    assert(t2 + bus.pending(id as int) =~= start);
                    assert(b0.cursors()[id as int].start <= b0.cursors()[id as int].next);
                    assert(bus.cursors()[id as int].start <= bus.cursors()[id as int].next);
                    assert(bus.cursors()[id as int].next == b0.cursors()[id as int].next + 1);
                    assert(m == b0.history()[b0.cursors()[id as int].next as int]);
                    assert(bus.received(id as int) =~= b0.received(id as int).push(m));
                    assert(bus.received(id as int) =~= rec + t2);
                    assert(holds_shutdown(t2) == (holds_shutdown(taken) || m is ShutDown)) by {
                        if m is ShutDown {
                            assert(t2[t2.len() - 1] is ShutDown);
                        }
                        if holds_shutdown(taken) {
                            let j = choose|j: int| 0 <= j < taken.len() && #[trigger] taken[j] is ShutDown;
                            assert(t2[j] is ShutDown);
                        }
                        if holds_shutdown(t2) {
                            let j = choose|j: int| 0 <= j < t2.len() && #[trigger] t2[j] is ShutDown;
                            if j < taken.len() {
                                assert(taken[j] is ShutDown);
                            }
                        }
                    }
                    taken = t2;
                }
                match m {
                    Msg::Reload(s) => {
                        out.push(s);
                        assert(out@.map_values(|s: String| s@) =~= instructions(taken));
                    },
                    Msg::ShutDown => {
                        shut = true;
                    },
                    _ => {},
                }
            },
        }
    }
}

} // verus!
