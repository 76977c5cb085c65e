//! The host's event loop, as the core sees it.
//!
//! The windowing layer owns the loop.  It tells the core what happened; the
//! core answers with the one thing to do about it.  Nothing but a redraw
//! request makes the core render, frames never overlap, and once the loop
//! has been left nothing is rendered any more.

use crate::error::{Severity, SurfaceError};
use vstd::prelude::*;

verus! {

/// What the windowing layer, or the frame renderer, reports to the core.
#[derive(Clone, Copy, Debug, PartialEq, Eq, Structural)]
pub enum HostEvent {
    /// The user asked for the window to be closed.
    CloseRequested,
    /// The window has to be drawn again.
    RedrawRequested,
    /// The frame that the core asked for was presented.
    FramePresented,
    /// The frame that the core asked for could not be rendered.
    FrameFailed(SurfaceError),
    /// Anything else; the core does not react to it.
    Other,
}

/// The core's answer to an event.
#[derive(Clone, Copy, Debug, PartialEq, Eq, Structural)]
pub enum LoopAction {
    /// Keep the loop running; nothing else is to be done.
    Wait,
    /// Render one frame now and report its outcome.
    RenderFrame,
    /// A frame was lost to a transient failure: tell the user, keep running.
    Report(SurfaceError),
    /// Leave the event loop.
    Exit,
}

/// Where the event loop stands.
#[derive(Clone, Copy, Debug, PartialEq, Eq, Structural)]
pub enum LoopState {
    /// The loop is served and no frame is under way.
    Running,
    /// A frame was asked for and its outcome is still to come.
    Rendering,
    /// The loop has been left.
    Exited,
}

impl LoopState {
    /// The reaction to one event.
    ///
    /// A close request leaves the loop, and so does a frame that failed
    /// fatally.  A redraw request renders a frame, unless one is under way
    /// already.  The outcome of a frame ends it; a transient failure is
    /// reported.  Everything else is ignored.  Once the loop has been left,
    /// every event is answered with `Exit`.
    pub open spec fn spec_step(self, event: HostEvent) -> (LoopState, LoopAction) {
        match (self, event) {
            (LoopState::Exited, _) => (LoopState::Exited, LoopAction::Exit),
            (_, HostEvent::CloseRequested) => (LoopState::Exited, LoopAction::Exit),
            (LoopState::Running, HostEvent::RedrawRequested) => (
                LoopState::Rendering,
                LoopAction::RenderFrame,
            ),
            (LoopState::Rendering, HostEvent::RedrawRequested) => (
                LoopState::Rendering,
                LoopAction::Wait,
            ),
            (_, HostEvent::FramePresented) => (LoopState::Running, LoopAction::Wait),
            (_, HostEvent::FrameFailed(error)) => if error.spec_severity() == Severity::Fatal {
                (LoopState::Exited, LoopAction::Exit)
            } else {
                (LoopState::Running, LoopAction::Report(error))
            },
            (_, HostEvent::Other) => (self, LoopAction::Wait),
        }
    }

    /// The state after the events of `events`, in order.
    pub open spec fn run(self, events: Seq<HostEvent>) -> LoopState
        decreases events.len(),
    {
        if events.len() == 0 {
            self
        } else {
            self.run(events.drop_last()).spec_step(events.last()).0
        }
    }

    /// The answer to the event at position `at` of `events`.
    pub open spec fn action_at(self, events: Seq<HostEvent>, at: int) -> LoopAction
        recommends
            0 <= at < events.len(),
    {
        self.run(events.take(at)).spec_step(events[at]).1
    }

    /// The state a host starts its loop in.
    pub fn new() -> (state: LoopState)
        ensures
            state == LoopState::Running,
    {
        LoopState::Running
    }

    /// Takes one event and says what to do about it.
    #[verifier::when_used_as_spec(spec_step)]
    pub fn step(self, event: HostEvent) -> (next: (LoopState, LoopAction))
        ensures
            next == self.spec_step(event),
    {
        match (self, event) {
            (LoopState::Exited, _) => (LoopState::Exited, LoopAction::Exit),
            (_, HostEvent::CloseRequested) => (LoopState::Exited, LoopAction::Exit),
            (LoopState::Running, HostEvent::RedrawRequested) => (
                LoopState::Rendering,
                LoopAction::RenderFrame,
            ),
            (LoopState::Rendering, HostEvent::RedrawRequested) => (
                LoopState::Rendering,
                LoopAction::Wait,
            ),
            (_, HostEvent::FramePresented) => (LoopState::Running, LoopAction::Wait),
            (_, HostEvent::FrameFailed(error)) => {
                if error.is_fatal() {
                    (LoopState::Exited, LoopAction::Exit)
                } else {
                    (LoopState::Running, LoopAction::Report(error))
                }
            },
            (state, HostEvent::Other) => (state, LoopAction::Wait),
        }
    }
}

/// The event that reports how a frame went.
pub open spec fn spec_frame_event(outcome: Result<(), SurfaceError>) -> HostEvent {
    match outcome {
        Ok(_) => HostEvent::FramePresented,
        Err(error) => HostEvent::FrameFailed(error),
    }
}

#[verifier::when_used_as_spec(spec_frame_event)]
pub fn frame_event(outcome: Result<(), SurfaceError>) -> (event: HostEvent)
    ensures
        event == spec_frame_event(outcome),
{
    match outcome {
        Ok(_) => HostEvent::FramePresented,
        Err(error) => HostEvent::FrameFailed(error),
    }
}

/// An event ends the loop if it is a close request or reports a fatal frame
/// failure.
pub open spec fn ends_loop(event: HostEvent) -> bool {
    match event {
        HostEvent::CloseRequested => true,
        HostEvent::FrameFailed(error) => error.spec_severity() == Severity::Fatal,
        _ => false,
    }
}

/// Leaving is for good: from `Exited`, every sequence of events ends in
/// `Exited`.
pub proof fn lemma_exited_is_final(events: Seq<HostEvent>)
    ensures
        LoopState::Exited.run(events) == LoopState::Exited,
    decreases events.len(),
{
    if events.len() > 0 {
        lemma_exited_is_final(events.drop_last());
    }
}

/// After an event that ends the loop, the loop has been left whatever
/// follows: if `events[close]` ends the loop, every longer prefix of
/// `events` leads to `Exited`.
pub proof fn lemma_left_after_close(
    start: LoopState,
    events: Seq<HostEvent>,
    close: int,
    upto: int,
)
    requires
        0 <= close < upto <= events.len(),
        ends_loop(events[close]),
    ensures
        start.run(events.take(upto)) == LoopState::Exited,
    decreases upto,
{
    let prefix = events.take(upto);
    assert(prefix.drop_last() == events.take(upto - 1));
    assert(prefix.last() == events[upto - 1]);
    if upto - 1 > close {
        lemma_left_after_close(start, events, close, upto - 1);
    }
}

/// No frame is rendered once the loop has been asked to end: an event that
/// follows a close request, or a fatal frame failure, is answered with
/// `Exit`, and so never with `RenderFrame`.
pub proof fn lemma_no_frame_after_close(
    start: LoopState,
    events: Seq<HostEvent>,
    close: int,
    later: int,
)
    requires
        0 <= close < later < events.len(),
        ends_loop(events[close]),
    ensures
        start.action_at(events, later) == LoopAction::Exit,
        start.action_at(events, later) != LoopAction::RenderFrame,
{
    lemma_left_after_close(start, events, close, later);
}

/// A frame is rendered for a redraw request only, and only while the loop
/// is served and no frame is under way.
pub proof fn lemma_frame_only_on_redraw(state: LoopState, event: HostEvent)
    ensures
        state.spec_step(event).1 == LoopAction::RenderFrame <==> (state == LoopState::Running
            && event == HostEvent::RedrawRequested),
        state.spec_step(event).1 == LoopAction::RenderFrame ==> state.spec_step(event).0
            == LoopState::Rendering,
{
}

/// The event reports the outcome of a frame.
pub open spec fn is_frame_outcome(event: HostEvent) -> bool {
    event is FramePresented || event is FrameFailed
}

/// From the request for a frame until its outcome is reported, the loop is
/// not free for another frame: if the event at `frame` was answered with
/// `RenderFrame` and no later event before `upto` reports an outcome, the
/// state after `upto` events is not `Running`.
pub proof fn lemma_busy_until_outcome(
    start: LoopState,
    events: Seq<HostEvent>,
    frame: int,
    upto: int,
)
    requires
        0 <= frame < upto <= events.len(),
        start.action_at(events, frame) == LoopAction::RenderFrame,
        forall|k: int| frame < k < upto ==> !is_frame_outcome(#[trigger] events[k]),
    ensures
        start.run(events.take(upto)) != LoopState::Running,
    decreases upto,
{
    let prefix = events.take(upto);
    assert(prefix.drop_last() == events.take(upto - 1));
    assert(prefix.last() == events[upto - 1]);
    if upto - 1 > frame {
        lemma_busy_until_outcome(start, events, frame, upto - 1);
        assert(!is_frame_outcome(events[upto - 1]));
    } else {
        lemma_frame_only_on_redraw(start.run(events.take(frame)), events[frame]);
    }
}

/// Frames do not overlap: between two events that are each answered with
/// `RenderFrame`, the outcome of the first frame is reported.
pub proof fn lemma_frames_do_not_overlap(
    start: LoopState,
    events: Seq<HostEvent>,
    first: int,
    second: int,
)
    requires
        0 <= first < second < events.len(),
        start.action_at(events, first) == LoopAction::RenderFrame,
        start.action_at(events, second) == LoopAction::RenderFrame,
    ensures
        exists|k: int| first < k < second && is_frame_outcome(#[trigger] events[k]),
{
    if forall|k: int| first < k < second ==> !is_frame_outcome(#[trigger] events[k]) {
        lemma_busy_until_outcome(start, events, first, second);
        lemma_frame_only_on_redraw(start.run(events.take(second)), events[second]);
        assert(false);
    }
}

/// A transient frame failure does not stop the loop, and the next redraw
/// request renders again.
pub proof fn lemma_transient_failure_keeps_running(state: LoopState, error: SurfaceError)
    requires
        state != LoopState::Exited,
        error.spec_severity() == Severity::Transient,
    ensures
        state.spec_step(HostEvent::FrameFailed(error)) == (
            LoopState::Running,
            LoopAction::Report(error),
        ),
        state.spec_step(HostEvent::FrameFailed(error)).0.spec_step(
            HostEvent::RedrawRequested,
        ).1 == LoopAction::RenderFrame,
{
}

} // verus!
