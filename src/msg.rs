use vstd::prelude::*;

verus! {

/// What happened to a file of the asset tree.
#[derive(Debug)]
pub enum Watched {
    Create(String),
    Write(String),
    Remove(String),
    Rename(String, String),
    Rescan,
}

/// An event on the message bus.
#[derive(Debug)]
pub enum Msg {
    /// sent by ctrl-c
    ShutDown,
    /// sent when a source file is changed
    SrcChanged,
    /// sent when an asset file changed
    AssetsChanged(Watched),
    /// sent when a style file changed
    StyleChanged,
    /// messages sent to reload server (forwarded to browser)
    Reload(String),
}

/// Equality of change descriptors: same kind, same paths.
pub open spec fn watched_eq(a: Watched, b: Watched) -> bool {
    match (a, b) {
        (Watched::Create(x), Watched::Create(y)) => x@ == y@,
        (Watched::Write(x), Watched::Write(y)) => x@ == y@,
        (Watched::Remove(x), Watched::Remove(y)) => x@ == y@,
        (Watched::Rename(x1, x2), Watched::Rename(y1, y2)) => x1@ == y1@ && x2@ == y2@,
        (Watched::Rescan, Watched::Rescan) => true,
        _ => false,
    }
}

/// Equality of events: same kind, same payload.
pub open spec fn msg_eq(a: Msg, b: Msg) -> bool {
    match (a, b) {
        (Msg::ShutDown, Msg::ShutDown) => true,
        (Msg::SrcChanged, Msg::SrcChanged) => true,
        (Msg::AssetsChanged(x), Msg::AssetsChanged(y)) => watched_eq(x, y),
        (Msg::StyleChanged, Msg::StyleChanged) => true,
        (Msg::Reload(x), Msg::Reload(y)) => x@ == y@,
        _ => false,
    }
}

impl Watched {
    /// A copy of this descriptor.
    pub fn duplicate(&self) -> (r: Watched)
        ensures
            r == *self,
    {
        match self {
            Watched::Create(p) => Watched::Create(p.clone()),
            Watched::Write(p) => Watched::Write(p.clone()),
            Watched::Remove(p) => Watched::Remove(p.clone()),
            Watched::Rename(a, b) => Watched::Rename(a.clone(), b.clone()),
            Watched::Rescan => Watched::Rescan,
        }
    }
}

impl Msg {
    /// A copy of this event, as each subscriber of the bus receives it.
    pub fn duplicate(&self) -> (r: Msg)
        ensures
            r == *self,
    {
        match self {
            Msg::ShutDown => Msg::ShutDown,
            Msg::SrcChanged => Msg::SrcChanged,
            Msg::AssetsChanged(w) => Msg::AssetsChanged(w.duplicate()),
            Msg::StyleChanged => Msg::StyleChanged,
            Msg::Reload(s) => Msg::Reload(s.clone()),
        }
    }

    /// The instruction that tells browser clients to reload now.
    pub fn reload() -> (r: Msg)
        ensures
            r matches Msg::Reload(s) && s@ == reload_token(),
    {
        proof {
            reveal_strlit("reload");
        }
        Msg::Reload(String::from_str("reload"))
    }
}

/// The literal instruction pushed to browsers: "reload".
pub open spec fn reload_token() -> Seq<char> {
    seq!['r', 'e', 'l', 'o', 'a', 'd']
}

impl PartialEq for Watched {
    fn eq(&self, o: &Watched) -> (r: bool)
        ensures
            r == watched_eq(*self, *o),
    {
        match (self, o) {
            (Watched::Create(x), Watched::Create(y)) => x.eq(y),
            (Watched::Write(x), Watched::Write(y)) => x.eq(y),
            (Watched::Remove(x), Watched::Remove(y)) => x.eq(y),
            (Watched::Rename(x1, x2), Watched::Rename(y1, y2)) => x1.eq(y1) && x2.eq(y2),
            (Watched::Rescan, Watched::Rescan) => true,
            _ => false,
        }
    }
}

impl vstd::std_specs::cmp::PartialEqSpecImpl for Watched {
    open spec fn obeys_eq_spec() -> bool {
        true
    }

    open spec fn eq_spec(&self, o: &Watched) -> bool {
        watched_eq(*self, *o)
    }
}

impl Eq for Watched {}

impl PartialEq for Msg {
    fn eq(&self, o: &Msg) -> (r: bool)
        ensures
            r == msg_eq(*self, *o),
    {
        match (self, o) {
            (Msg::ShutDown, Msg::ShutDown) => true,
            (Msg::SrcChanged, Msg::SrcChanged) => true,
            (Msg::AssetsChanged(x), Msg::AssetsChanged(y)) => x.eq(y),
            (Msg::StyleChanged, Msg::StyleChanged) => true,
            (Msg::Reload(x), Msg::Reload(y)) => x.eq(y),
            _ => false,
        }
    }
}

impl vstd::std_specs::cmp::PartialEqSpecImpl for Msg {
    open spec fn obeys_eq_spec() -> bool {
        true
    }

    open spec fn eq_spec(&self, o: &Msg) -> bool {
        msg_eq(*self, *o)
    }
}

impl Eq for Msg {}

} // verus!
