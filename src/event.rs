use vstd::prelude::*;

verus! {

/// A debounced file-system change, as delivered by the watcher.
#[derive(Debug, Clone, PartialEq, Eq)]
pub enum WatchEvent {
    Created(String),
    Written(String),
    Removed(String),
    Renamed(String, String),
}

/// The (canonical) path of the fragment-shader source being watched.
#[derive(Debug, Clone)]
pub struct ShaderSource {
    path: String,
}

/// Whether `ev` calls for a recompile of the source at `source`: only a
/// creation of, or a write to, that very path does.
pub open spec fn actionable(ev: WatchEvent, source: Seq<char>) -> bool {
    match ev {
        WatchEvent::Created(p) => p@ == source,
        WatchEvent::Written(p) => p@ == source,
        _ => false,
    }
}

impl ShaderSource {
    pub closed spec fn view(&self) -> Seq<char> {
        self.path@
    }

    pub fn new(path: String) -> (s: ShaderSource)
        ensures
            s.view() == path@,
    {
        ShaderSource { path }
    }

    pub fn path(&self) -> (p: &String)
        ensures
            p@ == self.view(),
    {
        &self.path
    }

    /// Filters a polled event: true exactly for `Created` or `Written` at the
    /// watched path.
    pub fn is_actionable(&self, ev: &WatchEvent) -> (r: bool)
        ensures
            r == actionable(*ev, self.view()),
    {
        match ev {
            WatchEvent::Created(p) => *p == self.path,
            WatchEvent::Written(p) => *p == self.path,
            _ => false,
        }
    }
}

} // verus!
