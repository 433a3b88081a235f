use vstd::prelude::*;
use crate::event::{actionable, WatchEvent};
use crate::reload::next_active;

verus! {

/// One frame as the driver sees it: the event polled, if any, and, where a
/// reload ran, the id of the material it registered (`None` when compiling or
/// registering failed).
pub type FrameInput = (Option<WatchEvent>, Option<u64>);

/// Whether the frame ran a reload, that is, whether `wants_reload` held.
pub open spec fn reloads(source: Seq<char>, polled: Option<WatchEvent>) -> bool {
    match polled {
        Some(ev) => actionable(ev, source),
        None => false,
    }
}

/// Whether the frame installed a new material.
pub open spec fn installs(source: Seq<char>, f: FrameInput) -> bool {
    reloads(source, f.0) && f.1 is Some
}

/// The bound material after the frames `frames`, starting from `initial`,
/// when each frame calls `complete_reload` exactly where `wants_reload` held.
pub open spec fn active_after(initial: u64, source: Seq<char>, frames: Seq<FrameInput>) -> u64
    decreases frames.len(),
{
    if frames.len() == 0 {
        initial
    } else {
        let prev = active_after(initial, source, frames.drop_last());
        let f = frames.last();
        if reloads(source, f.0) {
            next_active(prev, f.1)
        } else {
            prev
        }
    }
}

/// How many of the delivered events lead to a compile.
pub open spec fn reload_count(source: Seq<char>, events: Seq<WatchEvent>) -> nat
    decreases events.len(),
{
    if events.len() == 0 {
        0
    } else {
        reload_count(source, events.drop_last()) + if actionable(events.last(), source) {
            1nat
        } else {
            0nat
        }
    }
}

/// Whether the event names the path `p`, under any of its paths.
pub open spec fn touches(ev: WatchEvent, p: Seq<char>) -> bool {
    match ev {
        WatchEvent::Created(a) => a@ == p,
        WatchEvent::Written(a) => a@ == p,
        WatchEvent::Removed(a) => a@ == p,
        WatchEvent::Renamed(a, b) => a@ == p || b@ == p,
    }
}

/// After any sequence of frames, the bound material is the one registered by
/// the last successful reload, or the initial one if no reload succeeded:
/// never the result of a failed compile.
pub proof fn lemma_active_is_last_success(
    initial: u64,
    source: Seq<char>,
    frames: Seq<FrameInput>,
)
    ensures
        (forall|i: int| 0 <= i < frames.len() ==> !installs(source, #[trigger] frames[i]))
            ==> active_after(initial, source, frames) == initial,
        forall|i: int|
            0 <= i < frames.len() && installs(source, #[trigger] frames[i]) && (forall|j: int|
                i < j < frames.len() ==> !installs(source, #[trigger] frames[j])) ==> active_after(
                initial,
                source,
                frames,
            ) == frames[i].1->Some_0,
    decreases frames.len(),
{
    if frames.len() > 0 {
        let prefix = frames.drop_last();
        let n = frames.len() - 1;
        lemma_active_is_last_success(initial, source, prefix);
        assert forall|i: int| 0 <= i < prefix.len() implies prefix[i] == frames[i] by {}
        if installs(source, frames[n]) {
        } else {
            assert(active_after(initial, source, frames) == active_after(initial, source, prefix));
            assert forall|i: int|
                0 <= i < frames.len() && installs(source, #[trigger] frames[i]) && (forall|j: int|
                    i < j < frames.len() ==> !installs(source, #[trigger] frames[j])) implies active_after(
                initial,
                source,
                frames,
            ) == frames[i].1->Some_0 by {
                assert(i != n);
                assert(prefix[i] == frames[i]);
                assert forall|j: int| i < j < prefix.len() implies !installs(
                    source,
                    #[trigger] prefix[j],
                ) by {
                    assert(prefix[j] == frames[j]);
                }
            }
        }
    }
}

/// Events that do not name the watched path never lead to a compile.
pub proof fn lemma_unrelated_events_never_reload(source: Seq<char>, events: Seq<WatchEvent>)
    requires
        forall|i: int| 0 <= i < events.len() ==> !touches(#[trigger] events[i], source),
    ensures
        reload_count(source, events) == 0,
    decreases events.len(),
{
    if events.len() > 0 {
        let prefix = events.drop_last();
        assert forall|i: int| 0 <= i < prefix.len() implies !touches(#[trigger] prefix[i], source) by {
            assert(prefix[i] == events[i]);
        }
        lemma_unrelated_events_never_reload(source, prefix);
        assert(!touches(events[events.len() - 1], source));
    }
}

/// Each delivered event leads to at most one compile, so a burst that the
/// watcher coalesces into one event compiles at most once.
pub proof fn lemma_at_most_one_reload_per_event(source: Seq<char>, events: Seq<WatchEvent>)
    ensures
        reload_count(source, events) <= events.len(),
    decreases events.len(),
{
    if events.len() > 0 {
        lemma_at_most_one_reload_per_event(source, events.drop_last());
    }
}

} // verus!
