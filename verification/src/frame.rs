//! The frame loop: which input ends it, and how long a frame lasts.

use vstd::prelude::*;

verus! {

/// Frames shown per second.
pub const FRAMES_PER_SECOND: u32 = 60;

/// Nanoseconds in one second.
pub const NANOS_PER_SECOND: u32 = 1_000_000_000;

/// Pause between two frames, in whole nanoseconds. The loop sleeps for this
/// long after every frame, whatever the frame took to draw.
pub const FRAME_INTERVAL_NANOS: u32 = NANOS_PER_SECOND / FRAMES_PER_SECOND;

/// A key, as far as the frame loop tells keys apart.
#[derive(Clone, Copy, Debug, PartialEq, Eq)]
pub enum Key {
    Escape,
    Other,
}

/// An input or window event, as far as the frame loop tells events apart.
#[derive(Clone, Copy, Debug, PartialEq, Eq)]
pub enum InputEvent {
    /// The user asked for the window to be closed.
    Quit,
    /// A key went down; `keycode` is `None` where the window system could
    /// not name the key.
    KeyDown { keycode: Option<Key> },
    /// Anything else.
    Other,
}

/// Whether the frame loop is still going round.
#[derive(Clone, Copy, Debug, PartialEq, Eq)]
pub enum FrameLoop {
    Running,
    Stopped,
}

/// The events that end the frame loop: closing the window, and pressing
/// Escape.
pub open spec fn requests_quit(event: InputEvent) -> bool {
    match event {
        InputEvent::Quit => true,
        InputEvent::KeyDown { keycode: Some(Key::Escape) } => true,
        _ => false,
    }
}

impl FrameLoop {
    /// The loop after one event.
    pub open spec fn after(self, event: InputEvent) -> FrameLoop {
        if requests_quit(event) {
            FrameLoop::Stopped
        } else {
            self
        }
    }

    /// The loop after a run of events, taken in order.
    pub open spec fn after_all(self, events: Seq<InputEvent>) -> FrameLoop
        decreases events.len(),
    {
        if events.len() == 0 {
            self
        } else {
            self.after_all(events.drop_last()).after(events.last())
        }
    }

    /// A loop that has just been entered.
    pub fn start() -> (state: FrameLoop)
        ensures
            state == FrameLoop::Running,
    {
        FrameLoop::Running
    }

    /// Takes note of one polled event.
    pub fn on_event(self, event: InputEvent) -> (next: FrameLoop)
        ensures
            next == self.after(event),
    {
        match event {
            InputEvent::Quit => FrameLoop::Stopped,
            InputEvent::KeyDown { keycode: Some(Key::Escape) } => FrameLoop::Stopped,
            _ => self,
        }
    }

    /// Whether another frame is due.
    pub fn is_running(&self) -> (running: bool)
        ensures
            running == (*self == FrameLoop::Running),
    {
        match self {
            FrameLoop::Running => true,
            FrameLoop::Stopped => false,
        }
    }
}

/// A quit request stops the loop at once, whatever state it was in.
pub proof fn lemma_quit_stops(state: FrameLoop, event: InputEvent)
    requires
        requests_quit(event),
    ensures
        state.after(event) == FrameLoop::Stopped,
{
}

/// A stopped loop stays stopped, whatever arrives afterwards.
pub proof fn lemma_stopped_is_final(events: Seq<InputEvent>)
    ensures
        FrameLoop::Stopped.after_all(events) == FrameLoop::Stopped,
    decreases events.len(),
{
    if events.len() > 0 {
        lemma_stopped_is_final(events.drop_last());
    }
}

/// A poll cycle that holds a quit request leaves the loop stopped: no later
/// event of the cycle, and no earlier state, brings it back.
pub proof fn lemma_quit_ends_poll_cycle(state: FrameLoop, events: Seq<InputEvent>, i: int)
    requires
        0 <= i < events.len(),
        requests_quit(events[i]),
    ensures
        state.after_all(events) == FrameLoop::Stopped,
    decreases events.len(),
{
    if i < events.len() - 1 {
        lemma_quit_ends_poll_cycle(state, events.drop_last(), i);
    }
}

/// A poll cycle without a quit request leaves the loop as it was.
pub proof fn lemma_other_events_keep_state(state: FrameLoop, events: Seq<InputEvent>)
    requires
        forall|i: int| 0 <= i < events.len() ==> !requests_quit(#[trigger] events[i]),
    ensures
        state.after_all(events) == state,
    decreases events.len(),
{
    if events.len() > 0 {
        lemma_other_events_keep_state(state, events.drop_last());
    }
}

} // verus!
