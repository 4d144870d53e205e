use crate::msg::Msg;
use vstd::prelude::*;

verus! {

/// The process-wide shutdown flag: once set it stays set.
pub struct ShutdownFlag {
    set: bool,
}

/// The flag after one observed event: only `ShutDown` sets it, nothing clears it.
pub open spec fn flag_step(set: bool, m: Msg) -> bool {
    set || m is ShutDown
}

/// The flag after a sequence of observed events, starting from `set`.
pub open spec fn flag_after(set: bool, events: Seq<Msg>) -> bool
    decreases events.len(),
{
    if events.len() == 0 {
        set
    } else {
        flag_step(flag_after(set, events.drop_last()), events.last())
    }
}

impl ShutdownFlag {
    pub closed spec fn is_set_spec(&self) -> bool {
        self.set
    }

    /// A flag that is not set.
    pub fn new() -> (r: ShutdownFlag)
        ensures
            !r.is_set_spec(),
    {
        ShutdownFlag { set: false }
    }

    /// Whether shutdown was requested.
    pub fn is_set(&self) -> (r: bool)
        ensures
            r == self.is_set_spec(),
    {
        self.set
    }

    /// Requests shutdown; setting it again changes nothing.
    pub fn set(&mut self)
        ensures
            final(self).is_set_spec(),
    {
        self.set = true;
    }

    /// Takes note of an event seen on the bus.
    pub fn observe(&mut self, m: &Msg)
        ensures
            final(self).is_set_spec() == flag_step(old(self).is_set_spec(), *m),
    {
        if let Msg::ShutDown = m {
            self.set = true;
        }
    }
}

/// Once set, the flag is set after any further events, and a flag seen set
/// after some prefix of a sequence is still set after the whole sequence.
pub proof fn lemma_flag_stays_set(set: bool, events: Seq<Msg>, k: int)
    requires
        0 <= k <= events.len(),
        flag_after(set, events.take(k)),
    ensures
        flag_after(set, events),
    decreases events.len() - k,
{
    if k < events.len() {
        let next = events.take(k + 1);
        assert(next.drop_last() =~= events.take(k));
        lemma_flag_stays_set(set, events, k + 1);
    } else {
        assert(events.take(k) =~= events);
    }
}

} // verus!
