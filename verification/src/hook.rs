//! The pointer hook's decision: which registered windows a pointer move is
//! reported to.
//!
//! The callback itself belongs to the caller. It measures, for each
//! registered window in registry order, the window's client rectangle and
//! the pointer's position in the window's client coordinates, and hands the
//! measurements in. Whatever is decided here, the caller passes the event
//! on to the next hook in the chain.

use vstd::prelude::*;
use crate::geometry::ClientRect;
use crate::geometry::Position;

verus! {

/// The message code of a pointer move.
pub const WM_MOUSEMOVE: usize = 0x0200;

/// What the caller measured for one registered window.
#[derive(Clone, Copy, Debug, PartialEq, Eq, Structural)]
pub struct WindowSample {
    /// The window's client rectangle.
    pub client_rect: ClientRect,
    /// The pointer's position in the window's client coordinates.
    pub local: Position,
}

/// A "pointer moved" notification for one window.
#[derive(Clone, Copy, Debug, PartialEq, Eq, Structural)]
pub struct Notification {
    /// The index of the window among the samples.
    pub target: usize,
    /// The pointer's position in that window's client coordinates.
    pub position: Position,
}

/// Whether the hook looks at an event at all: its code is not negative and
/// its message is a pointer move.
pub open spec fn applies(n_code: i32, message: usize) -> bool {
    n_code >= 0 && message == WM_MOUSEMOVE
}

/// Whether the hook looks at this event.
pub fn hook_applies(n_code: i32, message: usize) -> (yes: bool)
    ensures
        yes == applies(n_code, message),
{
    n_code >= 0 && message == WM_MOUSEMOVE
}

/// The notifications that a pointer move gives rise to: one for each window
/// whose client rectangle contains the pointer, in the order of the
/// samples. No window hides another.
pub open spec fn notifications(samples: Seq<WindowSample>) -> Seq<Notification>
    decreases samples.len(),
{
    if samples.len() == 0 {
        Seq::empty()
    } else {
        let earlier = notifications(samples.drop_last());
        let last = samples.last();
        if last.client_rect.holds(last.local) {
            earlier.push(Notification { target: (samples.len() - 1) as usize, position: last.local })
        } else {
            earlier
        }
    }
}

/// Decides what the pointer hook emits for one event.
pub fn mouse_hook_proc(n_code: i32, message: usize, samples: &Vec<WindowSample>) -> (emitted: Vec<
    Notification,
>)
    ensures
        emitted@ == if applies(n_code, message) {
            notifications(samples@)
        } else {
            Seq::empty()
        },
{
    let mut emitted: Vec<Notification> = Vec::new();
    if !hook_applies(n_code, message) {
        return emitted;
    }
    let mut i: usize = 0;
    while i < samples.len()
        invariant
            i <= samples.len(),
            emitted@ == notifications(samples@.take(i as int)),
        decreases samples.len() - i,
    {
        let sample = samples[i];
        assert(samples@.take(i + 1).drop_last() =~= samples@.take(i as int));
        if sample.client_rect.contains(sample.local) {
            emitted.push(Notification { target: i, position: sample.local });
        }
        i += 1;
    }
    assert(samples@.take(i as int) =~= samples@);
    emitted
}

/// A window is notified exactly when its client rectangle contains the
/// pointer, whatever the other windows are; it is notified at most once, and
/// with the pointer's position in its own coordinates.
pub proof fn lemma_notified_iff_contained(samples: Seq<WindowSample>, i: int)
    requires
        0 <= i < samples.len(),
        samples.len() <= usize::MAX,
    ensures
        samples[i].client_rect.holds(samples[i].local) <==> exists|k: int|
            0 <= k < notifications(samples).len() && (#[trigger] notifications(samples)[k]).target
                == i,
        forall|k: int|
            0 <= k < notifications(samples).len() && (#[trigger] notifications(samples)[k]).target
                == i ==> notifications(samples)[k].position == samples[i].local,
        forall|k: int, l: int|
            0 <= k < l < notifications(samples).len() ==> (#[trigger] notifications(
                samples,
            )[k]).target < (#[trigger] notifications(samples)[l]).target,
    decreases samples.len(),
{
    lemma_targets_in_range(samples);
    let all = notifications(samples);
    let earlier = notifications(samples.drop_last());
    let last = samples.last();
    lemma_targets_in_range(samples.drop_last());
    if i < samples.len() - 1 {
        lemma_notified_iff_contained(samples.drop_last(), i);
        if samples[i].client_rect.holds(samples[i].local) {
            let k = choose|k: int| 0 <= k < earlier.len() && (#[trigger] earlier[k]).target == i;
            assert(all[k].target == i);
        }
    } else {
        if samples.len() > 1 {
            lemma_notified_iff_contained(samples.drop_last(), 0);
        }
        if last.client_rect.holds(last.local) {
            assert(all[all.len() - 1].target == i);
        }
    }
}

proof fn lemma_targets_in_range(samples: Seq<WindowSample>)
    requires
        samples.len() <= usize::MAX,
    ensures
        notifications(samples).len() <= samples.len(),
        forall|k: int|
            0 <= k < notifications(samples).len() ==> (#[trigger] notifications(samples)[k]).target
                < samples.len(),
    decreases samples.len(),
{
    if samples.len() > 0 {
        lemma_targets_in_range(samples.drop_last());
    }
}

} // verus!
