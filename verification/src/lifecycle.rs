//! The life of the view: it comes up or is disabled for good, and once up it
//! is painted once in every displayed frame.

use vstd::prelude::*;

verus! {

/// Where the view stands.
#[derive(Clone, Copy, Debug, PartialEq, Eq, Structural)]
pub enum ViewState {
    /// Nothing has been tried yet.
    Uninitialized,
    /// The view did not come up; the host goes on without it.
    Disabled,
    /// The view is up and waits for the frame's paint.
    Initialized,
    /// The view has been painted in the current frame.
    Painted,
}

/// What happens to the view.
#[derive(Clone, Copy, Debug, PartialEq, Eq, Structural)]
pub enum ViewEvent {
    /// The view came up.
    InitSucceeded,
    /// The view did not come up.
    InitFailed,
    /// The frame's paint ran.
    Paint,
    /// The frame was displayed.
    FrameEnd,
}

impl ViewState {
    /// The state that `event` leads to from `self`, where it may happen
    /// there: coming up or failing only at the start, a paint only when none
    /// has run in the frame, the end of a frame only after its paint.
    pub open spec fn next(self, event: ViewEvent) -> Option<ViewState> {
        match (self, event) {
            (ViewState::Uninitialized, ViewEvent::InitSucceeded) => Some(ViewState::Initialized),
            (ViewState::Uninitialized, ViewEvent::InitFailed) => Some(ViewState::Disabled),
            (ViewState::Initialized, ViewEvent::Paint) => Some(ViewState::Painted),
            (ViewState::Painted, ViewEvent::FrameEnd) => Some(ViewState::Initialized),
            _ => None,
        }
    }

    /// The state after `events` in order, where each may happen in its turn.
    pub open spec fn run(self, events: Seq<ViewEvent>) -> Option<ViewState>
        decreases events.len(),
    {
        if events.len() == 0 {
            Some(self)
        } else {
            match self.run(events.drop_last()) {
                Some(state) => state.next(events.last()),
                None => None,
            }
        }
    }

    /// The state that `event` leads to, or none where it may not happen in
    /// this state.
    pub fn on_event(self, event: ViewEvent) -> (next: Option<ViewState>)
        ensures
            next == self.next(event),
    {
        match (self, event) {
            (ViewState::Uninitialized, ViewEvent::InitSucceeded) => Some(ViewState::Initialized),
            (ViewState::Uninitialized, ViewEvent::InitFailed) => Some(ViewState::Disabled),
            (ViewState::Initialized, ViewEvent::Paint) => Some(ViewState::Painted),
            (ViewState::Painted, ViewEvent::FrameEnd) => Some(ViewState::Initialized),
            _ => None,
        }
    }

    /// Whether the host lists the view among its sub-applications.
    pub fn is_active(self) -> (active: bool)
        ensures
            active <==> self == ViewState::Initialized || self == ViewState::Painted,
    {
        match self {
            ViewState::Initialized | ViewState::Painted => true,
            _ => false,
        }
    }
}

/// How many of `events` are `event`.
pub open spec fn count(events: Seq<ViewEvent>, event: ViewEvent) -> nat
    decreases events.len(),
{
    if events.len() == 0 {
        0
    } else {
        count(events.drop_last(), event) + if events.last() == event {
            1nat
        } else {
            0nat
        }
    }
}

/// A disabled view stays disabled: nothing may happen to it.
pub proof fn lemma_disabled_is_final(events: Seq<ViewEvent>)
    requires
        events.len() > 0,
    ensures
        ViewState::Disabled.run(events) is None,
    decreases events.len(),
{
    if events.len() > 1 {
        lemma_disabled_is_final(events.drop_last());
    } else {
        assert(ViewState::Disabled.run(events.drop_last()) == Some(ViewState::Disabled));
    }
}

/// No view goes back to where nothing has been tried.
pub proof fn lemma_no_way_back(state: ViewState, events: Seq<ViewEvent>)
    requires
        events.len() > 0,
    ensures
        state.run(events) != Some(ViewState::Uninitialized),
{
}

/// A view that is up is painted exactly once in every displayed frame:
/// after any run of events it has been painted as often as frames were
/// displayed, and once more where the current frame's paint has run.
pub proof fn lemma_one_paint_per_frame(events: Seq<ViewEvent>)
    requires
        ViewState::Initialized.run(events) is Some,
    ensures
        ViewState::Initialized.run(events) == Some(ViewState::Initialized) ==> count(
            events,
            ViewEvent::Paint,
        ) == count(events, ViewEvent::FrameEnd),
        ViewState::Initialized.run(events) == Some(ViewState::Painted) ==> count(
            events,
            ViewEvent::Paint,
        ) == count(events, ViewEvent::FrameEnd) + 1,
        ViewState::Initialized.run(events) == Some(ViewState::Initialized)
            || ViewState::Initialized.run(events) == Some(ViewState::Painted),
    decreases events.len(),
{
    if events.len() > 0 {
        lemma_one_paint_per_frame(events.drop_last());
    }
}

} // verus!
