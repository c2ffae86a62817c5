//! The frame loop's decisions: what the window's events do to the loop, and
//! what follows from the outcome of a frame. The loop itself, which polls
//! the window and drives the GPU, lies outside this library; it hands each
//! tick's events and each frame's outcome to the functions here.

use crate::state::lemma_resize_idempotent;
use crate::state::RenderState;
use crate::surface::is_valid_size;
use crate::surface::SurfaceError;
use vstd::prelude::*;

verus! {

/// Whether the loop still renders frames.
#[derive(Clone, Copy, Debug, PartialEq, Eq, Structural)]
pub enum LoopState {
    Running,
    Terminated,
}

impl LoopState {
    /// A frame is rendered in a tick exactly if the loop is running.
    pub open spec fn spec_renders(self) -> bool {
        self == LoopState::Running
    }

    #[verifier::when_used_as_spec(spec_renders)]
    pub fn renders(self) -> (renders: bool)
        ensures
            renders == self.spec_renders(),
    {
        match self {
            LoopState::Running => true,
            LoopState::Terminated => false,
        }
    }
}

/// The keys the loop tells apart.
#[derive(Clone, Copy, Debug, PartialEq, Eq, Structural)]
pub enum Key {
    Escape,
    Other,
}

/// What was done to a key.
#[derive(Clone, Copy, Debug, PartialEq, Eq, Structural)]
pub enum KeyAction {
    Press,
    Release,
    Repeat,
}

/// An event of the window, as far as the loop reads it.
#[derive(Clone, Copy, Debug, PartialEq, Eq, Structural)]
pub enum WindowEvent {
    /// The user asked to close the window.
    Close,
    Key { key: Key, action: KeyAction },
    /// The framebuffer has a new size.
    FramebufferSize { width: i32, height: i32 },
    Other,
}

/// What the loop has to do after a frame.
#[derive(Clone, Copy, Debug, PartialEq, Eq, Structural)]
pub enum FollowUp {
    /// Nothing: the frame was presented.
    Continue,
    /// Configure the surface again with the state's configuration; the next
    /// tick tries again.
    Reconfigure,
    /// Report the error; the loop goes on.
    Report(SurfaceError),
}

/// What a tick starts with, once its events are handled.
#[derive(Clone, Copy, Debug, PartialEq, Eq, Structural)]
pub struct Tick {
    /// The loop's state for this tick.
    pub state: LoopState,
    /// Whether a resize was applied, so that the surface is to be configured
    /// again before the frame.
    pub reconfigure: bool,
}

/// The events that end the loop: a close request, or a press of Escape.
pub open spec fn is_close_request(event: WindowEvent) -> bool {
    event == WindowEvent::Close || event == (WindowEvent::Key {
        key: Key::Escape,
        action: KeyAction::Press,
    })
}

/// The loop and the render state after one event. A terminated loop ignores
/// every event; a running one is terminated by a close request, follows a
/// new framebuffer size, and ignores the rest. The flag records whether a
/// resize has been applied.
pub open spec fn after_event(
    before: (LoopState, RenderState, bool),
    event: WindowEvent,
) -> (LoopState, RenderState, bool) {
    let (state, render_state, reconfigure) = before;
    if state == LoopState::Terminated {
        before
    } else if is_close_request(event) {
        (LoopState::Terminated, render_state, reconfigure)
    } else if let WindowEvent::FramebufferSize { width, height } = event {
        (
            LoopState::Running,
            render_state.resized((width, height)),
            reconfigure || is_valid_size((width, height)),
        )
    } else {
        before
    }
}

/// The loop and the render state after a run of events, handled in order.
pub open spec fn after_events(
    state: LoopState,
    render_state: RenderState,
    events: Seq<WindowEvent>,
) -> (LoopState, RenderState, bool)
    decreases events.len(),
{
    if events.len() == 0 {
        (state, render_state, false)
    } else {
        after_event(after_events(state, render_state, events.drop_last()), events.last())
    }
}

/// What follows from the outcome of a frame: nothing after a frame that was
/// presented, a reconfiguration after a lost or outdated surface, a report
/// after any other error.
pub open spec fn follow_up_of(outcome: Result<(), SurfaceError>) -> FollowUp {
    match outcome {
        Ok(_) => FollowUp::Continue,
        Err(error) => if error.needs_reconfigure() {
            FollowUp::Reconfigure
        } else {
            FollowUp::Report(error)
        },
    }
}

/// Handles the events of one tick, in order, before the tick's frame.
pub fn begin_tick(
    state: LoopState,
    render_state: &mut RenderState,
    events: &Vec<WindowEvent>,
) -> (tick: Tick)
    ensures
        (tick.state, *final(render_state), tick.reconfigure) == after_events(
            state,
            *old(render_state),
            events@,
        ),
        final(render_state).well_formed(),
{
    proof {
        use_type_invariant(&*render_state);
    }
    let mut tick = Tick { state, reconfigure: false };
    let mut i: usize = 0;
    while i < events.len()
        invariant
            i <= events@.len(),
            render_state.well_formed(),
            (tick.state, *render_state, tick.reconfigure) == after_events(
                state,
                *old(render_state),
                events@.take(i as int),
            ),
        decreases events@.len() - i,
    {
        assert(events@.take(i + 1).drop_last() =~= events@.take(i as int));
        let event = events[i];
        if tick.state.renders() {
            match event {
                WindowEvent::Close => {
                    tick.state = LoopState::Terminated;
                },
                WindowEvent::Key { key: Key::Escape, action: KeyAction::Press } => {
                    tick.state = LoopState::Terminated;
                },
                WindowEvent::FramebufferSize { width, height } => {
                    let applied = render_state.resize((width, height));
                    tick.reconfigure = tick.reconfigure || applied;
                },
                _ => {},
            }
        }
        i = i + 1;
    }
    assert(events@.take(i as int) =~= events@);
    tick
}

/// Decides what follows a frame from its outcome. The loop's state is never
/// changed by a frame: no error ends the loop. After a lost or outdated
/// surface the state is resized, once, to the size it last had.
pub fn end_tick(
    state: LoopState,
    render_state: &mut RenderState,
    outcome: Result<(), SurfaceError>,
) -> (next: (LoopState, FollowUp))
    ensures
        next.0 == state,
        next.1 == follow_up_of(outcome),
        next.1 == FollowUp::Reconfigure ==> *final(render_state) == old(render_state).resized(
            old(render_state).spec_size(),
        ),
        *final(render_state) == *old(render_state),
        final(render_state).well_formed(),
{
    proof {
        use_type_invariant(&*render_state);
    }
    match outcome {
        Ok(_) => (state, FollowUp::Continue),
        Err(error) => {
            if error.needs_reconfigure() {
                let size = render_state.size();
                proof {
                    lemma_resize_idempotent(*render_state, size);
                }
                render_state.resize(size);
                (state, FollowUp::Reconfigure)
            } else {
                (state, FollowUp::Report(error))
            }
        },
    }
}

/// A terminated loop stays terminated: whatever events come, the loop, the
/// render state and the surface are left alone, and no frame is rendered.
pub proof fn lemma_terminated_is_final(render_state: RenderState, events: Seq<WindowEvent>)
    ensures
        after_events(LoopState::Terminated, render_state, events) == (
            LoopState::Terminated,
            render_state,
            false,
        ),
        !after_events(LoopState::Terminated, render_state, events).0.renders(),
    decreases events.len(),
{
    if events.len() > 0 {
        lemma_terminated_is_final(render_state, events.drop_last());
    }
}

/// A tick whose events hold a close request ends terminated, wherever among
/// the events the request stands, and so renders no frame.
pub proof fn lemma_close_request_terminates(
    state: LoopState,
    render_state: RenderState,
    events: Seq<WindowEvent>,
    i: int,
)
    requires
        0 <= i < events.len(),
        is_close_request(events[i]),
    ensures
        after_events(state, render_state, events).0 == LoopState::Terminated,
        !after_events(state, render_state, events).0.renders(),
    decreases events.len(),
{
    if i < events.len() - 1 {
        lemma_close_request_terminates(state, render_state, events.drop_last(), i);
    }
}

/// A running loop that sees no close request keeps running.
pub proof fn lemma_runs_without_close_request(
    render_state: RenderState,
    events: Seq<WindowEvent>,
)
    requires
        forall|i: int| 0 <= i < events.len() ==> !is_close_request(#[trigger] events[i]),
    ensures
        after_events(LoopState::Running, render_state, events).0 == LoopState::Running,
    decreases events.len(),
{
    if events.len() > 0 {
        lemma_runs_without_close_request(render_state, events.drop_last());
    }
}

} // verus!
