//! The frame orchestrator: a state machine that turns native window events
//! and per-frame results into actions for the host event loop.
//!
//! One tick runs as a fixed protocol. [`RunState::on_event`] answers
//! [`EventAction::Tick`]; the host acquires a surface image and reports the
//! result to [`RunState::on_acquire`]; if that says to go on, the host builds
//! the UI frame from [`RunState::frame_input`], runs the UI framework, submits
//! the draw work, and reports the output to [`RunState::finish_tick`], which
//! returns the directive for the host loop.

use vstd::prelude::*;
use crate::surface::{config_for_size, SurfaceConfig};

verus! {

/// The native events the loop reacts to.
#[derive(Clone, Copy, Debug, PartialEq, Eq, Structural)]
pub enum LoopEvent {
    /// The window now has this physical size.
    Resized { width: u32, height: u32 },
    /// The windowing system asks for the window to be drawn.
    RedrawRequested,
    /// The windowing system has delivered all redraw requests of this cycle.
    RedrawEventsCleared,
    /// The windowing system has delivered all input events of this cycle.
    MainEventsCleared,
    /// A repaint signal from some thread woke the loop.
    UserWake,
    /// Anything else.
    Other,
}

/// What the host event loop is told to do after a tick.
#[derive(Clone, Copy, Debug, PartialEq, Eq, Structural)]
pub enum ControlDirective {
    /// Stop the loop; the process shuts down.
    Exit,
    /// Run the next iteration as soon as possible.
    PollContinuously,
    /// Block until the next native event or repaint signal.
    WaitForEvent,
}

/// Where the loop stands between callbacks.
#[derive(Clone, Copy, Debug, PartialEq, Eq, Structural)]
pub enum Phase {
    /// Waiting for the next event or tick.
    Idle,
    /// A surface image was acquired and the tick is under way.
    Rendering,
    /// The loop was told to exit; nothing more happens.
    Terminated,
}

/// What the host does in answer to a native event.
#[derive(Clone, Copy, Debug, PartialEq, Eq, Structural)]
pub enum EventAction {
    /// Nothing.
    Ignore,
    /// Recreate the presentation surface with this configuration.
    Reconfigure(SurfaceConfig),
    /// Run one tick: acquire an image, then report to `on_acquire`.
    Tick,
    /// Hand the event to the UI framework's input handling, then ask the
    /// window for a redraw.
    ForwardAndRequestRedraw,
}

/// Why no surface image could be had for a tick.
#[derive(Clone, Copy, Debug, PartialEq, Eq, Structural)]
pub enum AcquireError {
    /// The backend produced no image in time; the tick is skipped.
    Dropped,
}

/// The flags of one frame's output that steer the loop.
#[derive(Clone, Copy, Debug, PartialEq, Eq, Structural)]
pub struct FrameOutput {
    pub needs_repaint: bool,
    pub quit: bool,
}

/// What the host does after a tick.
#[derive(Clone, Copy, Debug, PartialEq, Eq, Structural)]
pub struct TickOutcome {
    pub directive: ControlDirective,
    /// Ask the window for a redraw, for platforms that wake only on one.
    pub request_redraw: bool,
}

/// The integer part of what a tick hands the UI framework; the host adds the
/// window's scale factor.
#[derive(Clone, Copy, Debug, PartialEq, Eq, Structural)]
pub struct FrameInput {
    /// Nanoseconds since the loop started.
    pub elapsed_nanos: u64,
    /// Nanoseconds since local midnight.
    pub nanos_since_midnight: u64,
    /// How long the UI framework took in the last tick that ran, in
    /// nanoseconds.
    pub previous_frame_duration: Option<u64>,
}

/// The loop's state for the life of the process.
#[derive(Clone, Copy, Debug, PartialEq, Eq, Structural)]
pub struct RunState {
    pub phase: Phase,
    /// What the presentation surface is configured with.
    pub surface: SurfaceConfig,
    /// The window's last reported physical size.
    pub window_width: u32,
    pub window_height: u32,
    /// How long the UI framework took in the last tick that ran.
    pub previous_frame_duration: Option<u64>,
    /// The directive last handed to the host loop.
    pub directive: ControlDirective,
    /// Ticks run when the redraw events of a cycle are cleared (on the
    /// platforms that want it) rather than on each redraw request.
    pub redraw_on_events_cleared: bool,
}

/// The directive that a frame's output calls for: quitting wins, then a
/// request to repaint.
pub open spec fn directive_for(output: FrameOutput) -> ControlDirective {
    if output.quit {
        ControlDirective::Exit
    } else if output.needs_repaint {
        ControlDirective::PollContinuously
    } else {
        ControlDirective::WaitForEvent
    }
}

pub open spec fn outcome_for(output: FrameOutput) -> TickOutcome {
    TickOutcome {
        directive: directive_for(output),
        request_redraw: directive_for(output) == ControlDirective::PollContinuously,
    }
}

/// The event on which a tick runs, on a platform with the given setting.
pub open spec fn redraw_trigger(redraw_on_events_cleared: bool) -> LoopEvent {
    if redraw_on_events_cleared {
        LoopEvent::RedrawEventsCleared
    } else {
        LoopEvent::RedrawRequested
    }
}

pub open spec fn event_action(s: RunState, e: LoopEvent) -> EventAction {
    if s.phase == Phase::Terminated {
        EventAction::Ignore
    } else {
        match e {
            LoopEvent::Resized { width, height } => EventAction::Reconfigure(
                config_for_size(width, height),
            ),
            LoopEvent::MainEventsCleared | LoopEvent::UserWake => EventAction::ForwardAndRequestRedraw,
            _ => if e == redraw_trigger(s.redraw_on_events_cleared) {
                EventAction::Tick
            } else {
                EventAction::Ignore
            },
        }
    }
}

pub open spec fn after_event(s: RunState, e: LoopEvent) -> RunState {
    if s.phase == Phase::Terminated {
        s
    } else {
        match e {
            LoopEvent::Resized { width, height } => RunState {
                surface: config_for_size(width, height),
                window_width: width,
                window_height: height,
                ..s
            },
            _ => s,
        }
    }
}

/// The state after a sequence of native events, with no tick in between.
pub open spec fn after_events(s: RunState, es: Seq<LoopEvent>) -> RunState
    decreases es.len(),
{
    if es.len() == 0 {
        s
    } else {
        after_event(after_events(s, es.drop_last()), es.last())
    }
}

/// The size carried by the last resize event of `es`, or `size` if there is
/// none.
pub open spec fn last_size(size: (u32, u32), es: Seq<LoopEvent>) -> (u32, u32)
    decreases es.len(),
{
    if es.len() == 0 {
        size
    } else {
        match es.last() {
            LoopEvent::Resized { width, height } => (width, height),
            _ => last_size(size, es.drop_last()),
        }
    }
}

/// The state after a tick's acquisition: a dropped image changes nothing.
pub open spec fn after_acquire(s: RunState, result: Result<(), AcquireError>) -> RunState {
    match result {
        Ok(()) => RunState { phase: Phase::Rendering, ..s },
        Err(_) => s,
    }
}

/// The state after a tick that took `frame_duration` and returned `output`.
pub open spec fn after_finish(s: RunState, frame_duration: u64, output: FrameOutput) -> RunState {
    RunState {
        phase: if output.quit {
            Phase::Terminated
        } else {
            Phase::Idle
        },
        previous_frame_duration: Some(frame_duration),
        directive: directive_for(output),
        ..s
    }
}

impl RunState {
    /// The surface is configured for the window's last reported size.
    pub open spec fn wf(&self) -> bool {
        self.surface == config_for_size(self.window_width, self.window_height)
    }

    /// The state before the first event, for a window of the given physical
    /// size. The host loop starts out polling.
    pub fn new(width: u32, height: u32, redraw_on_events_cleared: bool) -> (r: RunState)
        ensures
            r.wf(),
            r.phase == Phase::Idle,
            r.window_width == width,
            r.window_height == height,
            r.previous_frame_duration.is_none(),
            r.directive == ControlDirective::PollContinuously,
            r.redraw_on_events_cleared == redraw_on_events_cleared,
    {
        RunState {
            phase: Phase::Idle,
            surface: SurfaceConfig::for_size(width, height),
            window_width: width,
            window_height: height,
            previous_frame_duration: None,
            directive: ControlDirective::PollContinuously,
            redraw_on_events_cleared,
        }
    }

    /// The action for a native event, and the state after it. A resize
    /// reconfigures the surface at once, so no image is ever acquired against
    /// a stale size. After the loop has terminated every event is ignored.
    pub fn on_event(&mut self, event: LoopEvent) -> (r: EventAction)
        requires
            old(self).wf(),
            old(self).phase != Phase::Rendering,
        ensures
            r == event_action(*old(self), event),
            *final(self) == after_event(*old(self), event),
            final(self).wf(),
    {
        if self.phase == Phase::Terminated {
            return EventAction::Ignore;
        }
        match event {
            LoopEvent::Resized { width, height } => {
                let config = SurfaceConfig::for_size(width, height);
                self.surface = config;
                self.window_width = width;
                self.window_height = height;
                EventAction::Reconfigure(config)
            },
            LoopEvent::MainEventsCleared | LoopEvent::UserWake => EventAction::ForwardAndRequestRedraw,
            LoopEvent::RedrawEventsCleared => {
                if self.redraw_on_events_cleared {
                    EventAction::Tick
                } else {
                    EventAction::Ignore
                }
            },
            LoopEvent::RedrawRequested => {
                if self.redraw_on_events_cleared {
                    EventAction::Ignore
                } else {
                    EventAction::Tick
                }
            },
            LoopEvent::Other => EventAction::Ignore,
        }
    }

    /// Takes the result of acquiring a surface image for a tick, and says
    /// whether the tick goes on. A dropped image skips the tick and leaves the
    /// state as it was; the next tick is the retry.
    pub fn on_acquire(&mut self, result: Result<(), AcquireError>) -> (proceed: bool)
        requires
            old(self).wf(),
            old(self).phase == Phase::Idle,
        ensures
            proceed == result.is_ok(),
            *final(self) == after_acquire(*old(self), result),
            final(self).wf(),
            proceed ==> final(self).surface.width == final(self).window_width
                && final(self).surface.height == final(self).window_height,
    {
        match result {
            Ok(()) => {
                self.phase = Phase::Rendering;
                true
            },
            Err(AcquireError::Dropped) => false,
        }
    }

    /// What the UI framework is handed in the tick under way: the clock
    /// readings given, and the duration measured in the last tick that ran.
    pub fn frame_input(&self, elapsed_nanos: u64, nanos_since_midnight: u64) -> (r: FrameInput)
        requires
            self.phase == Phase::Rendering,
        ensures
            r == (FrameInput {
                elapsed_nanos,
                nanos_since_midnight,
                previous_frame_duration: self.previous_frame_duration,
            }),
    {
        FrameInput {
            elapsed_nanos,
            nanos_since_midnight,
            previous_frame_duration: self.previous_frame_duration,
        }
    }

    /// Ends the tick under way, given how long the UI framework took and what
    /// it returned. The duration is kept for the next tick; the directive
    /// follows [`directive_for`]; an exit terminates the loop.
    pub fn finish_tick(&mut self, frame_duration: u64, output: FrameOutput) -> (r: TickOutcome)
        requires
            old(self).wf(),
            old(self).phase == Phase::Rendering,
        ensures
            r == outcome_for(output),
            *final(self) == after_finish(*old(self), frame_duration, output),
            final(self).wf(),
    {
        let directive = decide_directive(output);
        self.previous_frame_duration = Some(frame_duration);
        self.directive = directive;
        self.phase = if output.quit {
            Phase::Terminated
        } else {
            Phase::Idle
        };
        TickOutcome {
            directive,
            request_redraw: match directive {
                ControlDirective::PollContinuously => true,
                _ => false,
            },
        }
    }
}

/// The directive that a frame's output calls for.
pub fn decide_directive(output: FrameOutput) -> (r: ControlDirective)
    ensures
        r == directive_for(output),
{
    if output.quit {
        ControlDirective::Exit
    } else if output.needs_repaint {
        ControlDirective::PollContinuously
    } else {
        ControlDirective::WaitForEvent
    }
}

/// After any sequence of native events, an idle loop's surface is configured
/// for the size of the last resize among them, or for the window's size
/// before them if there was none: the next acquisition never meets a stale
/// surface.
pub proof fn lemma_surface_follows_last_resize(s: RunState, es: Seq<LoopEvent>)
    requires
        s.wf(),
        s.phase == Phase::Idle,
    ensures
        after_events(s, es).wf(),
        after_events(s, es).phase == Phase::Idle,
        after_events(s, es).surface == config_for_size(
            last_size((s.window_width, s.window_height), es).0,
            last_size((s.window_width, s.window_height), es).1,
        ),
    decreases es.len(),
{
    if es.len() > 0 {
        lemma_surface_follows_last_resize(s, es.drop_last());
    }
}

/// Quitting ends the loop whatever else the frame asked for; otherwise a
/// request to repaint keeps the loop polling and asks the window for a
/// redraw; with neither, the loop waits for the next event.
pub proof fn lemma_tick_outcome(output: FrameOutput)
    ensures
        output.quit ==> outcome_for(output).directive == ControlDirective::Exit,
        output.quit ==> !outcome_for(output).request_redraw,
        !output.quit && output.needs_repaint ==> outcome_for(output).directive
            == ControlDirective::PollContinuously && outcome_for(output).request_redraw,
        !output.quit && !output.needs_repaint ==> outcome_for(output).directive
            == ControlDirective::WaitForEvent && !outcome_for(output).request_redraw,
{
}

/// A loop waiting for events, woken by a repaint signal, asks the window for
/// a redraw and changes nothing else; the platform's redraw event then runs a
/// tick, and it is the one event that does.
pub proof fn lemma_wake_runs_one_tick(s: RunState)
    requires
        s.wf(),
        s.phase == Phase::Idle,
        s.directive == ControlDirective::WaitForEvent,
    ensures
        event_action(s, LoopEvent::UserWake) == EventAction::ForwardAndRequestRedraw,
        after_event(s, LoopEvent::UserWake) == s,
        event_action(s, redraw_trigger(s.redraw_on_events_cleared)) == EventAction::Tick,
        forall|e: LoopEvent| #[trigger]
            event_action(s, e) == EventAction::Tick ==> e == redraw_trigger(
                s.redraw_on_events_cleared,
            ),
{
}

/// Once a tick has quit, no event runs another tick or changes the state.
pub proof fn lemma_terminated_is_final(s: RunState, e: LoopEvent)
    requires
        s.phase == Phase::Terminated,
    ensures
        event_action(s, e) == EventAction::Ignore,
        after_event(s, e) == s,
{
}

/// A tick whose image was dropped leaves no trace: when the next
/// acquisition succeeds, the tick is handed the duration measured before the
/// dropped one, and the surface it was acquired against.
pub proof fn lemma_dropped_tick_keeps_duration(s: RunState)
    requires
        s.wf(),
        s.phase == Phase::Idle,
    ensures
        after_acquire(s, Err(AcquireError::Dropped)) == s,
        after_acquire(after_acquire(s, Err(AcquireError::Dropped)), Ok(())).phase
            == Phase::Rendering,
        after_acquire(
            after_acquire(s, Err(AcquireError::Dropped)),
            Ok(()),
        ).previous_frame_duration == s.previous_frame_duration,
        after_acquire(after_acquire(s, Err(AcquireError::Dropped)), Ok(())).wf(),
{
}

/// A tick that quits terminates the loop, and from then on no event runs
/// another tick.
pub proof fn lemma_quit_ends_ticks(s: RunState, frame_duration: u64, output: FrameOutput, es: Seq<LoopEvent>)
    requires
        s.wf(),
        s.phase == Phase::Rendering,
        output.quit,
    ensures
        after_finish(s, frame_duration, output).phase == Phase::Terminated,
        after_events(after_finish(s, frame_duration, output), es) == after_finish(
            s,
            frame_duration,
            output,
        ),
        forall|e: LoopEvent| #[trigger]
            event_action(after_events(after_finish(s, frame_duration, output), es), e)
                == EventAction::Ignore,
    decreases es.len(),
{
    if es.len() > 0 {
        lemma_quit_ends_ticks(s, frame_duration, output, es.drop_last());
    }
}

} // verus!
