use crate::msg::{Msg, Watched};
use vstd::prelude::*;

verus! {

/// A classified filesystem change, as the watcher sees it before coalescing.
#[derive(Debug)]
pub enum Change {
    Source,
    Style,
    Asset(Watched),
}

/// The pending bursts, one per category: when each is due, and for assets
/// the change to report.
pub struct Pending {
    pub source: Option<u64>,
    pub style: Option<u64>,
    pub assets: Option<(u64, Watched)>,
}

/// When a burst noted at `now` is due: the window after it, or the end of time.
pub open spec fn deadline(now: u64, window: u64) -> u64 {
    if now + window > u64::MAX {
        u64::MAX
    } else {
        (now + window) as u64
    }
}

/// Coalesces bursts of changes: every change of a category pushes that
/// category's deadline to one window after it, and a category is published
/// once, when its deadline has passed with no further change.
pub struct Debouncer {
    window: u64,
    source: Option<u64>,
    style: Option<u64>,
    assets: Option<(u64, Watched)>,
}

/// The pending bursts after a change noted at `now`. Two or more asset changes
/// in one burst are reported as a rescan of the whole tree.
pub open spec fn noted(p: Pending, c: Change, now: u64, window: u64) -> Pending {
    let d = deadline(now, window);
    match c {
        Change::Source => Pending { source: Some(d), ..p },
        Change::Style => Pending { style: Some(d), ..p },
        Change::Asset(w) => Pending {
            assets: Some((d, if p.assets is Some { Watched::Rescan } else { w })),
            ..p
        },
    }
}

pub open spec fn is_due(due: Option<u64>, now: u64) -> bool {
    due matches Some(d) && d <= now
}

/// The events due at `now`, one at most per category, sources first.
pub open spec fn due_events(p: Pending, now: u64) -> Seq<Msg> {
    (if is_due(p.source, now) {
        seq![Msg::SrcChanged]
    } else {
        Seq::<Msg>::empty()
    }) + (if is_due(p.style, now) {
        seq![Msg::StyleChanged]
    } else {
        Seq::<Msg>::empty()
    }) + match p.assets {
        Some((d, w)) => if d <= now {
            seq![Msg::AssetsChanged(w)]
        } else {
            Seq::<Msg>::empty()
        },
        None => Seq::<Msg>::empty(),
    }
}

/// What stays pending once the due bursts went out.
pub open spec fn after_due(p: Pending, now: u64) -> Pending {
    Pending {
        source: if is_due(p.source, now) { None } else { p.source },
        style: if is_due(p.style, now) { None } else { p.style },
        assets: match p.assets {
            Some((d, _)) => if d <= now { None } else { p.assets },
            None => None,
        },
    }
}

/// A burst is published once: looking again at the same moment finds nothing
/// more, and one look yields at most one event of each category.
pub proof fn lemma_burst_published_once(p: Pending, now: u64)
    ensures
        due_events(after_due(p, now), now) == Seq::<Msg>::empty(),
        due_events(p, now).len() <= 3,
        forall|i: int, j: int|
            0 <= i < j < due_events(p, now).len() ==> !msg_same_kind(
                #[trigger] due_events(p, now)[i],
                #[trigger] due_events(p, now)[j],
            ),
{
    assert(due_events(after_due(p, now), now) =~= Seq::<Msg>::empty());
}

/// Whether two events are of the same kind, whatever they carry.
pub open spec fn msg_same_kind(a: Msg, b: Msg) -> bool {
    match (a, b) {
        (Msg::ShutDown, Msg::ShutDown) => true,
        (Msg::SrcChanged, Msg::SrcChanged) => true,
        (Msg::AssetsChanged(_), Msg::AssetsChanged(_)) => true,
        (Msg::StyleChanged, Msg::StyleChanged) => true,
        (Msg::Reload(_), Msg::Reload(_)) => true,
        _ => false,
    }
}

impl View for Debouncer {
    type V = Pending;

    closed spec fn view(&self) -> Pending {
        Pending { source: self.source, style: self.style, assets: self.assets }
    }
}

impl Debouncer {
    pub closed spec fn window_spec(&self) -> u64 {
        self.window
    }

    /// A debouncer with nothing pending and the given window.
    pub fn new(window: u64) -> (r: Debouncer)
        ensures
            r.window_spec() == window,
            r@ == (Pending { source: None, style: None, assets: None }),
    {
        Debouncer { window, source: None, style: None, assets: None }
    }

    /// Notes a change seen at `now`; nothing is published yet.
    pub fn note(&mut self, c: Change, now: u64)
        ensures
            final(self).window_spec() == old(self).window_spec(),
            final(self)@ == noted(old(self)@, c, now, old(self).window_spec()),
    {
        let d = now.saturating_add(self.window);
        match c {
            Change::Source => {
                self.source = Some(d);
            },
            Change::Style => {
                self.style = Some(d);
            },
            Change::Asset(w) => {
                let w = if self.assets.is_some() {
                    Watched::Rescan
                } else {
                    w
                };
                self.assets = Some((d, w));
            },
        }
    }

    /// The earliest deadline pending, if any: when to look again.
    pub fn next_deadline(&self) -> (r: Option<u64>)
        ensures
            r is None <==> (self@.source is None && self@.style is None && self@.assets is None),
            r matches Some(d) ==> (self@.source matches Some(s) ==> d <= s) && (self@.style matches Some(s)
                ==> d <= s) && (self@.assets matches Some(a) ==> d <= a.0),
            r matches Some(d) ==> (self@.source == Some(d) || self@.style == Some(d) || (
            self@.assets matches Some(a) && a.0 == d)),
    {
        let mut r: Option<u64> = self.source;
        if let Some(s) = self.style {
            r = match r {
                Some(d) if d <= s => Some(d),
                _ => Some(s),
            };
        }
        if let Some((a, _)) = &self.assets {
            r = match r {
                Some(d) if d <= *a => Some(d),
                _ => Some(*a),
            };
        }
        r
    }

    /// Publishes the bursts whose deadline has passed at `now`.
    pub fn take_due(&mut self, now: u64) -> (r: Vec<Msg>)
        ensures
            final(self).window_spec() == old(self).window_spec(),
            r@ == due_events(old(self)@, now),
            final(self)@ == after_due(old(self)@, now),
    {
        let mut r: Vec<Msg> = Vec::new();
        if let Some(d) = self.source {
            if d <= now {
                r.push(Msg::SrcChanged);
                self.source = None;
            }
        }
        if let Some(d) = self.style {
            if d <= now {
                r.push(Msg::StyleChanged);
                self.style = None;
            }
        }
        let assets = self.assets.take();
        match assets {
            Some((d, w)) => {
                if d <= now {
                    r.push(Msg::AssetsChanged(w));
                } else {
                    self.assets = Some((d, w));
                }
            },
            None => {},
        }
        assert(r@ =~= due_events(old(self)@, now));
        r
    }
}

} // verus!
