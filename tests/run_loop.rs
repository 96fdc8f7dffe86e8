use frame_loop::run_loop::{
    decide_directive, AcquireError, ControlDirective, EventAction, FrameOutput, LoopEvent, Phase,
    RunState,
};
use frame_loop::surface::{PixelFormat, PresentMode, SurfaceConfig};

fn output(needs_repaint: bool, quit: bool) -> FrameOutput {
    FrameOutput { needs_repaint, quit }
}

fn run_tick(state: &mut RunState, duration: u64, out: FrameOutput) -> ControlDirective {
    assert_eq!(state.on_event(LoopEvent::RedrawRequested), EventAction::Tick);
    assert!(state.on_acquire(Ok(())));
    state.finish_tick(duration, out).directive
}

#[test]
fn new_state_configures_initial_size() {
    let state = RunState::new(800, 600, false);
    assert_eq!(state.phase, Phase::Idle);
    assert_eq!(state.surface.width, 800);
    assert_eq!(state.surface.height, 600);
    assert_eq!(state.surface.format, PixelFormat::Rgba8UnormSrgb);
    assert_eq!(state.surface.present_mode, PresentMode::Mailbox);
    assert_eq!(state.previous_frame_duration, None);
}

#[test]
fn resize_before_first_frame_uses_new_size() {
    let mut state = RunState::new(800, 600, false);
    let action = state.on_event(LoopEvent::Resized { width: 1024, height: 768 });
    assert_eq!(action, EventAction::Reconfigure(SurfaceConfig::for_size(1024, 768)));
    assert_eq!(state.on_event(LoopEvent::RedrawRequested), EventAction::Tick);
    assert!(state.on_acquire(Ok(())));
    assert_eq!(state.surface.width, 1024);
    assert_eq!(state.surface.height, 768);
    assert!(!state.surface.matches_size(800, 600));
}

#[test]
fn surface_follows_last_of_several_resizes() {
    let mut state = RunState::new(800, 600, false);
    state.on_event(LoopEvent::Resized { width: 640, height: 480 });
    state.on_event(LoopEvent::Other);
    state.on_event(LoopEvent::Resized { width: 1920, height: 1080 });
    state.on_event(LoopEvent::MainEventsCleared);
    assert_eq!(state.surface, SurfaceConfig::for_size(1920, 1080));
    assert_eq!((state.window_width, state.window_height), (1920, 1080));
}

#[test]
fn quit_on_fifth_tick_ends_the_loop() {
    let mut state = RunState::new(800, 600, false);
    for tick in 1..5u64 {
        assert_eq!(run_tick(&mut state, tick, output(true, false)), ControlDirective::PollContinuously);
    }
    assert_eq!(run_tick(&mut state, 5, output(true, true)), ControlDirective::Exit);
    assert_eq!(state.phase, Phase::Terminated);
    assert_eq!(state.on_event(LoopEvent::RedrawRequested), EventAction::Ignore);
    assert_eq!(state.on_event(LoopEvent::UserWake), EventAction::Ignore);
    assert_eq!(state.on_event(LoopEvent::Resized { width: 10, height: 10 }), EventAction::Ignore);
    assert_eq!(state.surface.width, 800);
}

#[test]
fn dropped_acquisition_skips_one_tick() {
    let mut state = RunState::new(800, 600, false);
    run_tick(&mut state, 7_000, output(false, false));
    let before = state;
    assert_eq!(state.on_event(LoopEvent::RedrawRequested), EventAction::Tick);
    assert!(!state.on_acquire(Err(AcquireError::Dropped)));
    assert_eq!(state, before);
    assert_eq!(state.on_event(LoopEvent::RedrawRequested), EventAction::Tick);
    assert!(state.on_acquire(Ok(())));
    let input = state.frame_input(3_000_000, 42);
    assert_eq!(input.previous_frame_duration, Some(7_000));
    assert_eq!(input.elapsed_nanos, 3_000_000);
    assert_eq!(input.nanos_since_midnight, 42);
    state.finish_tick(9_000, output(false, false));
    assert_eq!(state.previous_frame_duration, Some(9_000));
}

#[test]
fn first_tick_has_no_previous_duration() {
    let mut state = RunState::new(800, 600, false);
    state.on_event(LoopEvent::RedrawRequested);
    assert!(state.on_acquire(Ok(())));
    assert_eq!(state.frame_input(0, 0).previous_frame_duration, None);
}

#[test]
fn quit_takes_precedence_over_repaint() {
    assert_eq!(decide_directive(output(true, true)), ControlDirective::Exit);
    assert_eq!(decide_directive(output(false, true)), ControlDirective::Exit);
    let mut state = RunState::new(800, 600, false);
    state.on_event(LoopEvent::RedrawRequested);
    state.on_acquire(Ok(()));
    let outcome = state.finish_tick(1, output(true, true));
    assert_eq!(outcome.directive, ControlDirective::Exit);
    assert!(!outcome.request_redraw);
}

#[test]
fn needs_repaint_polls_and_requests_redraw() {
    assert_eq!(decide_directive(output(true, false)), ControlDirective::PollContinuously);
    let mut state = RunState::new(800, 600, false);
    state.on_event(LoopEvent::RedrawRequested);
    state.on_acquire(Ok(()));
    let outcome = state.finish_tick(1, output(true, false));
    assert_eq!(outcome.directive, ControlDirective::PollContinuously);
    assert!(outcome.request_redraw);
    assert_eq!(state.phase, Phase::Idle);
    assert_eq!(state.directive, ControlDirective::PollContinuously);
}

#[test]
fn no_repaint_waits_for_events() {
    assert_eq!(decide_directive(output(false, false)), ControlDirective::WaitForEvent);
    let mut state = RunState::new(800, 600, true);
    assert_eq!(state.on_event(LoopEvent::RedrawEventsCleared), EventAction::Tick);
    state.on_acquire(Ok(()));
    let outcome = state.finish_tick(1, output(false, false));
    assert_eq!(outcome.directive, ControlDirective::WaitForEvent);
    assert!(!outcome.request_redraw);
}

#[test]
fn wake_while_waiting_runs_one_tick() {
    let mut state = RunState::new(800, 600, false);
    run_tick(&mut state, 1, output(false, false));
    assert_eq!(state.directive, ControlDirective::WaitForEvent);
    let before = state;
    assert_eq!(state.on_event(LoopEvent::UserWake), EventAction::ForwardAndRequestRedraw);
    assert_eq!(state, before);
    assert_eq!(state.on_event(LoopEvent::RedrawEventsCleared), EventAction::Ignore);
    assert_eq!(state.on_event(LoopEvent::RedrawRequested), EventAction::Tick);
}

#[test]
fn events_cleared_platform_ticks_only_on_cleared() {
    let mut state = RunState::new(800, 600, true);
    assert_eq!(state.on_event(LoopEvent::RedrawRequested), EventAction::Ignore);
    assert_eq!(state.on_event(LoopEvent::MainEventsCleared), EventAction::ForwardAndRequestRedraw);
    assert_eq!(state.on_event(LoopEvent::RedrawEventsCleared), EventAction::Tick);
    assert_eq!(state.on_event(LoopEvent::Other), EventAction::Ignore);
}

#[test]
fn surface_config_matches_size() {
    let config = SurfaceConfig::for_size(3, 4);
    assert!(config.matches_size(3, 4));
    assert!(!config.matches_size(4, 3));
}
