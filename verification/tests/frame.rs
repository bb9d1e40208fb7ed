use render_plan::frame::{FRAMES_PER_SECOND, FRAME_INTERVAL_NANOS, NANOS_PER_SECOND};
use render_plan::{FrameLoop, InputEvent, Key};

fn after_all(start: FrameLoop, events: &[InputEvent]) -> FrameLoop {
    let mut state = start;
    for event in events {
        state = state.on_event(*event);
    }
    state
}

#[test]
fn a_loop_starts_running() {
    assert_eq!(FrameLoop::start(), FrameLoop::Running);
    assert!(FrameLoop::start().is_running());
    assert!(!FrameLoop::Stopped.is_running());
}

#[test]
fn closing_the_window_stops_the_loop() {
    assert_eq!(FrameLoop::Running.on_event(InputEvent::Quit), FrameLoop::Stopped);
}

#[test]
fn pressing_escape_stops_the_loop() {
    let escape = InputEvent::KeyDown { keycode: Some(Key::Escape) };
    assert_eq!(FrameLoop::Running.on_event(escape), FrameLoop::Stopped);
}

#[test]
fn other_input_keeps_the_loop_running() {
    let events = [
        InputEvent::Other,
        InputEvent::KeyDown { keycode: Some(Key::Other) },
        InputEvent::KeyDown { keycode: None },
    ];
    for event in events {
        assert_eq!(FrameLoop::Running.on_event(event), FrameLoop::Running);
    }
    assert_eq!(after_all(FrameLoop::Running, &events), FrameLoop::Running);
}

#[test]
fn a_stopped_loop_stays_stopped() {
    let events = [
        InputEvent::Other,
        InputEvent::KeyDown { keycode: Some(Key::Other) },
        InputEvent::KeyDown { keycode: None },
        InputEvent::KeyDown { keycode: Some(Key::Escape) },
        InputEvent::Quit,
    ];
    for event in events {
        assert_eq!(FrameLoop::Stopped.on_event(event), FrameLoop::Stopped);
    }
}

#[test]
fn a_quit_anywhere_in_a_poll_cycle_stops_the_loop() {
    let other = InputEvent::Other;
    let key = InputEvent::KeyDown { keycode: Some(Key::Other) };
    let escape = InputEvent::KeyDown { keycode: Some(Key::Escape) };
    assert_eq!(after_all(FrameLoop::Running, &[InputEvent::Quit, other, key]), FrameLoop::Stopped);
    assert_eq!(after_all(FrameLoop::Running, &[other, escape, key]), FrameLoop::Stopped);
    assert_eq!(after_all(FrameLoop::Running, &[other, key, InputEvent::Quit]), FrameLoop::Stopped);
}

#[test]
fn an_empty_poll_cycle_changes_nothing() {
    assert_eq!(after_all(FrameLoop::Running, &[]), FrameLoop::Running);
    assert_eq!(after_all(FrameLoop::Stopped, &[]), FrameLoop::Stopped);
}

#[test]
fn a_frame_lasts_a_sixtieth_of_a_second() {
    assert_eq!(FRAMES_PER_SECOND, 60);
    assert_eq!(NANOS_PER_SECOND, 1_000_000_000);
    assert_eq!(FRAME_INTERVAL_NANOS, 16_666_666);
}
