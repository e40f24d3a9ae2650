//! The engine: buffers events, drives the fixed-timestep loop on each frame
//! tick, and shuts down once on a close request.
use vstd::prelude::*;

use crate::buffer::{lemma_drain_empties, lemma_drained_times, QueueModel};
use crate::clock::{ClockState, SimulationClock, FIXED_TIME_STEP_NANOS, MAX_CATCH_UP_STEPS};
use crate::event::{Event, WindowEvent};
use crate::layer::{Layer, LayerStack};
use crate::platform::{engine_event_of, winit_event_parser, PlatformEvent};
use crate::repo::EventRepository;
use crate::window::{WgpuWindowBuilder, WindowSettings};

verus! {

/// Failures that keep an engine from being built.
#[derive(Debug, Clone, Copy, PartialEq, Eq, Structural)]
pub enum EngineError {
    /// No window was realized, so there is nothing to run the engine in.
    WindowCreationFailed,
}

/// The two observable states of an engine; `ShuttingDown` is terminal.
#[derive(Debug, Clone, Copy, PartialEq, Eq, Structural)]
pub enum EngineState {
    Running,
    ShuttingDown,
}

/// What the engine did with one event.
#[derive(Debug, Clone, PartialEq, Eq)]
pub enum Dispatch {
    /// The engine has shut down; the event was dropped and nothing changed.
    Ignored,
    /// A close request: the engine is now shutting down, and the platform
    /// must be told to close.
    CloseRequested,
    /// A frame tick: `updates` simulation steps ran, then one render.
    /// `delivered` are the buffered events the steps handed to the layers,
    /// in arrival order.
    Frame { updates: u64, delivered: Vec<Event> },
    /// The event was buffered for the next simulation step.
    Buffered,
}

/// What the platform's run loop must do after one of its events.
#[derive(Debug, Clone, Copy, PartialEq, Eq, Structural)]
pub enum PlatformAction {
    /// Keep polling.
    Continue,
    /// Ask the window for a redraw, which comes back as a frame tick.
    RequestRedraw,
    /// Leave the run loop.
    Exit,
}

/// How a render backend reported one frame.
#[derive(Debug, Clone, Copy, PartialEq, Eq, Structural)]
pub enum RenderStatus {
    Presented,
    SurfaceLost,
    SurfaceOutdated,
    OutOfMemory,
    /// A backend-specific, transient failure.
    Other,
}

/// What follows from a render backend's report.
#[derive(Debug, Clone, Copy, PartialEq, Eq, Structural)]
pub enum RenderFollowUp {
    /// Nothing to do.
    Continue,
    /// Reconfigure the surface to the window's size, and retry on the next
    /// frame tick.
    Reconfigure,
    /// Log the failure and skip the frame; the next one is expected to work.
    Skip,
    /// Fatal: the engine is shutting down, and the platform must be told to
    /// close.
    Shutdown,
}

/// One call of the layers' hooks made by the engine.
#[derive(Debug, Clone, Copy, PartialEq, Eq, Structural)]
pub enum Phase {
    /// A simulation step: every layer's update hook.
    Update,
    /// A frame: every layer's render hook.
    Render,
}

/// The hook calls of one frame tick that runs `steps` simulation steps:
/// `steps` updates, then one render.
pub open spec fn frame_phases(steps: nat) -> Seq<Phase> {
    Seq::new(steps, |i: int| Phase::Update).push(Phase::Render)
}

pub open spec fn close_event() -> Event {
    Event::WindowEvent(WindowEvent::WindowClose)
}

pub open spec fn redraw_event() -> Event {
    Event::WindowEvent(WindowEvent::WindowRedrawRequested)
}

/// Owns the window handle, the event buffer, the simulation clock and the
/// layers, and decides what each incoming event does to them.
pub struct Engine<W, L> {
    window: W,
    running: bool,
    event_repository: EventRepository,
    clock: SimulationClock,
    layers: LayerStack<L>,
    phases: Ghost<Seq<Phase>>,
}

impl<W, L: Layer> Engine<W, L> {
    /// Every hook call the engine has made so far, in order.
    pub closed spec fn phase_log(&self) -> Seq<Phase> {
        self.phases@
    }

    pub closed spec fn spec_is_running(&self) -> bool {
        self.running
    }

    /// The window handle the engine owns.
    pub closed spec fn window_handle(&self) -> W {
        self.window
    }

    /// The state of the event buffer.
    pub closed spec fn queue(&self) -> QueueModel {
        self.event_repository@
    }

    /// The state of the simulation clock.
    pub closed spec fn clock_state(&self) -> ClockState {
        self.clock@
    }

    /// The registered layers, in registration order.
    pub closed spec fn layer_seq(&self) -> Seq<L> {
        self.layers@
    }

    pub open spec fn wf(&self) -> bool {
        self.queue().wf() && self.clock_state().wf()
    }

    /// `post` is what dispatching `event` at wall time `now` makes of
    /// `self`.
    pub open spec fn dispatched(&self, post: &Self, event: Event, now: int) -> bool {
        &&& post.window_handle() == self.window_handle()
        &&& post.layer_seq().len() == self.layer_seq().len()
        &&& if !self.spec_is_running() {
            post == self
        } else if event == close_event() {
            &&& !post.spec_is_running()
            &&& post.queue() == self.queue()
            &&& post.clock_state() == self.clock_state()
            &&& post.layer_seq() == self.layer_seq()
            &&& post.phase_log() == self.phase_log()
        } else if event == redraw_event() {
            &&& post.spec_is_running()
            &&& post.queue() == self.queue().drained_times(
                self.clock_state().steps_for(now) as nat,
            )
            &&& post.clock_state() == self.clock_state().advanced(now)
            &&& post.phase_log() == self.phase_log() + frame_phases(
                self.clock_state().steps_for(now) as nat,
            )
        } else {
            &&& post.spec_is_running()
            &&& post.queue() == self.queue().pushed(event)
            &&& post.clock_state() == self.clock_state()
            &&& post.layer_seq() == self.layer_seq()
            &&& post.phase_log() == self.phase_log()
        }
    }

    /// `r` is what dispatching `event` at wall time `now` reports.
    pub open spec fn dispatch_outcome(&self, event: Event, now: int, r: Dispatch) -> bool {
        if !self.spec_is_running() {
            r is Ignored
        } else if event == close_event() {
            r is CloseRequested
        } else if event == redraw_event() {
            &&& r matches Dispatch::Frame { updates, delivered }
            &&& updates == self.clock_state().steps_for(now)
            &&& delivered@ == if updates > 0 {
                self.queue().pending()
            } else {
                Seq::empty()
            }
        } else {
            r is Buffered
        }
    }

    /// A running engine in `window`, with the default clock first sampled
    /// at `now`, nothing buffered and no layers.
    pub fn new(window: W, now: u64) -> (r: Self)
        ensures
            r.wf(),
            r.window_handle() == window,
            r.spec_is_running(),
            r.queue() == QueueModel::empty(),
            r.clock_state() == (ClockState {
                engine_time: 0,
                fixed_step: FIXED_TIME_STEP_NANOS as nat,
                current_time: now as nat,
                accumulator: 0,
                max_steps: MAX_CATCH_UP_STEPS as nat,
            }),
            r.layer_seq().len() == 0,
            r.phase_log().len() == 0,
    {
        Engine {
            window,
            running: true,
            event_repository: EventRepository::new(),
            clock: SimulationClock::new(now),
            layers: LayerStack::new(),
            phases: Ghost(Seq::empty()),
        }
    }

    /// An engine in the window that the platform realized; without one,
    /// there is no engine.
    pub fn from_window(window: Option<W>, now: u64) -> (r: Result<Self, EngineError>)
        ensures
            window is None <==> r == Err::<Self, EngineError>(EngineError::WindowCreationFailed),
            r matches Ok(e) ==> {
                &&& window == Some(e.window_handle())
                &&& e.wf()
                &&& e.spec_is_running()
                &&& e.queue() == QueueModel::empty()
                &&& e.clock_state() == (ClockState {
                    engine_time: 0,
                    fixed_step: FIXED_TIME_STEP_NANOS as nat,
                    current_time: now as nat,
                    accumulator: 0,
                    max_steps: MAX_CATCH_UP_STEPS as nat,
                })
                &&& e.layer_seq().len() == 0
                &&& e.phase_log().len() == 0
            },
    {
        match window {
            Some(w) => Ok(Engine::new(w, now)),
            None => Err(EngineError::WindowCreationFailed),
        }
    }

    /// Whether the engine still processes events.
    pub fn is_running(&self) -> (r: bool)
        ensures
            r == self.spec_is_running(),
    {
        self.running
    }

    /// The engine's lifecycle state.
    pub fn state(&self) -> (r: EngineState)
        ensures
            r == (if self.spec_is_running() {
                EngineState::Running
            } else {
                EngineState::ShuttingDown
            }),
    {
        if self.running {
            EngineState::Running
        } else {
            EngineState::ShuttingDown
        }
    }

    /// The window the engine runs in.
    pub fn window(&self) -> (r: &W)
        ensures
            *r == self.window_handle(),
    {
        &self.window
    }

    /// The event buffer.
    pub fn event_repository(&self) -> (r: &EventRepository)
        ensures
            r@ == self.queue(),
    {
        &self.event_repository
    }

    /// The simulation clock.
    pub fn clock(&self) -> (r: &SimulationClock)
        ensures
            r@ == self.clock_state(),
    {
        &self.clock
    }

    /// The registered layers.
    pub fn layers(&self) -> (r: &LayerStack<L>)
        ensures
            r@ == self.layer_seq(),
    {
        &self.layers
    }

    /// Registers `layer` after every layer already registered.
    pub fn add_layer(&mut self, layer: L)
        ensures
            final(self).layer_seq() == old(self).layer_seq().push(layer),
            final(self).phase_log() == old(self).phase_log(),
            final(self).window_handle() == old(self).window_handle(),
            final(self).spec_is_running() == old(self).spec_is_running(),
            final(self).queue() == old(self).queue(),
            final(self).clock_state() == old(self).clock_state(),
    {
        self.layers.push(layer)
    }

    /// One simulation step: drains the buffered events, hands them to every
    /// layer in registration order, and returns them in arrival order.
    pub fn update(&mut self) -> (r: Vec<Event>)
        ensures
            r@ == old(self).queue().drained_events(),
            final(self).queue() == old(self).queue().drained(),
            final(self).window_handle() == old(self).window_handle(),
            final(self).spec_is_running() == old(self).spec_is_running(),
            final(self).clock_state() == old(self).clock_state(),
            final(self).layer_seq().len() == old(self).layer_seq().len(),
            forall|j: int|
                0 <= j < old(self).layer_seq().len() ==> #[trigger] old(self).layer_seq()[j].update_post(
                    r@,
                    final(self).layer_seq()[j],
                ),
            final(self).phase_log() == old(self).phase_log().push(Phase::Update),
    {
        let events = self.event_repository.drain();
        self.layers.update(events.as_slice());
        self.phases = Ghost(self.phases@.push(Phase::Update));
        events
    }

    /// Draws one frame with every layer in registration order.
    pub fn render(&mut self)
        ensures
            final(self).window_handle() == old(self).window_handle(),
            final(self).spec_is_running() == old(self).spec_is_running(),
            final(self).queue() == old(self).queue(),
            final(self).clock_state() == old(self).clock_state(),
            final(self).layer_seq().len() == old(self).layer_seq().len(),
            forall|j: int|
                0 <= j < old(self).layer_seq().len() ==> #[trigger] old(self).layer_seq()[j].render_post(
                    final(self).layer_seq()[j],
                ),
            final(self).phase_log() == old(self).phase_log().push(Phase::Render),
    {
        self.layers.render();
        self.phases = Ghost(self.phases@.push(Phase::Render));
    }

    /// Handles one event at wall time `now`.
    ///
    /// Once shut down, the engine ignores every event. A close request shuts
    /// it down. A frame tick samples the clock, runs one simulation step for
    /// each whole step owed (at most the clock's catch-up bound), then
    /// renders once, however many steps ran. Any other event is buffered for
    /// the next simulation step.
    pub fn dispatch(&mut self, event: Event, now: u64) -> (r: Dispatch)
        requires
            old(self).wf(),
        ensures
            final(self).wf(),
            old(self).dispatched(final(self), event, now as int),
            old(self).dispatch_outcome(event, now as int, r),
    {
        if !self.running {
            return Dispatch::Ignored;
        }
        match event {
            Event::WindowEvent(WindowEvent::WindowClose) => {
                self.running = false;
                Dispatch::CloseRequested
            },
            Event::WindowEvent(WindowEvent::WindowRedrawRequested) => {
                let ghost q0 = self.queue();
                let ghost w0 = self.window_handle();
                let ghost n0 = self.layer_seq().len();
                let ghost log0 = self.phase_log();
                let updates = self.clock.advance(now);
                let mut delivered: Vec<Event> = Vec::new();
                let mut i: u64 = 0;
                while i < updates
                    invariant
                        i <= updates,
                        q0.wf(),
                        self.queue() == q0.drained_times(i as nat),
                        self.queue().wf(),
                        delivered@ == if i > 0 {
                            q0.pending()
                        } else {
                            Seq::empty()
                        },
                        self.running,
                        self.window_handle() == w0,
                        self.clock_state() == old(self).clock_state().advanced(now as int),
                        self.clock_state().wf(),
                        self.layer_seq().len() == n0,
                        self.phase_log() == log0 + Seq::new(i as nat, |k: int| Phase::Update),
                    decreases updates - i,
                {
                    proof {
                        lemma_drained_times(q0, i as nat);
                        lemma_drain_empties(self.queue());
                    }
                    let mut batch = self.update();
                    delivered.append(&mut batch);
                    proof {
                        if i > 0 {
                            assert(delivered@ =~= q0.pending());
                        }
                    }
                    assert(log0 + Seq::new((i + 1) as nat, |k: int| Phase::Update) =~= (log0
                        + Seq::new(i as nat, |k: int| Phase::Update)).push(Phase::Update));
                    i = i + 1;
                }
                self.render();
                assert(self.phase_log() =~= log0 + frame_phases(updates as nat));
                Dispatch::Frame { updates, delivered }
            },
            _ => {
                self.event_repository.push(event);
                Dispatch::Buffered
            },
        }
    }

    /// Handles one native event of the platform's run loop at wall time
    /// `now`, and says what the run loop must do next.
    ///
    /// Once the engine has shut down, the run loop must exit. When all input
    /// of a platform tick has been delivered, it must ask for a redraw. Any
    /// other event that the engine uses is dispatched; the run loop must exit
    /// after a close request.
    pub fn on_platform_event(&mut self, event: PlatformEvent, now: u64) -> (r: PlatformAction)
        requires
            old(self).wf(),
        ensures
            final(self).wf(),
            !old(self).spec_is_running() ==> r is Exit && *final(self) == *old(self),
            old(self).spec_is_running() && event is MainEventsCleared ==> r is RequestRedraw
                && *final(self) == *old(self),
            old(self).spec_is_running() && event is Other ==> r is Continue && *final(self)
                == *old(self),
            old(self).spec_is_running() ==> (engine_event_of(event) matches Some(e) ==> {
                &&& old(self).dispatched(final(self), e, now as int)
                &&& (r is Exit <==> e == close_event())
                &&& (r is Continue <==> e != close_event())
            }),
    {
        if !self.running {
            return PlatformAction::Exit;
        }
        if let PlatformEvent::MainEventsCleared = event {
            return PlatformAction::RequestRedraw;
        }
        match winit_event_parser(event) {
            Some(e) => match self.dispatch(e, now) {
                Dispatch::CloseRequested => PlatformAction::Exit,
                _ => PlatformAction::Continue,
            },
            None => PlatformAction::Continue,
        }
    }

    /// Applies the failure policy to a render backend's report of one frame.
    /// Only running out of memory is fatal: it shuts the engine down.
    pub fn on_render_result(&mut self, status: RenderStatus) -> (r: RenderFollowUp)
        ensures
            r == match status {
                RenderStatus::Presented => RenderFollowUp::Continue,
                RenderStatus::SurfaceLost => RenderFollowUp::Reconfigure,
                RenderStatus::SurfaceOutdated => RenderFollowUp::Reconfigure,
                RenderStatus::OutOfMemory => RenderFollowUp::Shutdown,
                RenderStatus::Other => RenderFollowUp::Skip,
            },
            final(self).spec_is_running() == (old(self).spec_is_running() && !(status is OutOfMemory)),
            final(self).window_handle() == old(self).window_handle(),
            final(self).queue() == old(self).queue(),
            final(self).clock_state() == old(self).clock_state(),
            final(self).layer_seq() == old(self).layer_seq(),
            final(self).phase_log() == old(self).phase_log(),
    {
        match status {
            RenderStatus::Presented => RenderFollowUp::Continue,
            RenderStatus::SurfaceLost => RenderFollowUp::Reconfigure,
            RenderStatus::SurfaceOutdated => RenderFollowUp::Reconfigure,
            RenderStatus::OutOfMemory => {
                self.running = false;
                RenderFollowUp::Shutdown
            },
            RenderStatus::Other => RenderFollowUp::Skip,
        }
    }
}

/// Shutdown is terminal: a close request stops a running engine, and once
/// stopped, dispatching any event at any time changes nothing.
pub proof fn lemma_close_is_terminal<W, L: Layer>(
    e: Engine<W, L>,
    post: Engine<W, L>,
    event: Event,
    now: int,
)
    requires
        e.dispatched(&post, event, now),
    ensures
        e.spec_is_running() && event == close_event() ==> !post.spec_is_running(),
        !e.spec_is_running() ==> post == e,
        !e.spec_is_running() ==> e.dispatch_outcome(event, now, Dispatch::Ignored),
{
}

/// A frame tick at the instant of the last sample runs no simulation step,
/// renders once, and leaves the buffered events in place.
pub proof fn lemma_tick_without_elapsed_time<W, L: Layer>(e: Engine<W, L>, post: Engine<W, L>)
    requires
        e.wf(),
        e.spec_is_running(),
        e.dispatched(&post, redraw_event(), e.clock_state().current_time as int),
    ensures
        e.clock_state().steps_for(e.clock_state().current_time as int) == 0,
        post.queue() == e.queue(),
        post.spec_is_running(),
        post.phase_log() == e.phase_log().push(Phase::Render),
{
    let c = e.clock_state();
    assert(c.debt_at(c.current_time as int) == c.accumulator);
    assert((c.accumulator as int) / (c.fixed_step as int) == 0) by (nonlinear_arith)
        requires
            0 <= c.accumulator < c.fixed_step,
    ;
    assert(frame_phases(0) =~= seq![Phase::Render]);
}

/// Collects what is needed to start an engine, then hands it to a runner.
#[derive(Debug, Clone)]
pub struct WgpuEngineBuilder {
    pub window: Option<WgpuWindowBuilder>,
}

impl WgpuEngineBuilder {
    /// A builder without a window.
    pub fn new() -> (r: WgpuEngineBuilder)
        ensures
            r.window is None,
    {
        WgpuEngineBuilder { window: None }
    }

    /// Sets the window the engine runs in.
    pub fn with_window(self, window_builder: WgpuWindowBuilder) -> (r: WgpuEngineBuilder)
        ensures
            r.window == Some(window_builder),
    {
        WgpuEngineBuilder { window: Some(window_builder) }
    }

    /// The settings of the window to open; without a window there is no
    /// engine to run.
    pub fn window_settings(self) -> (r: Result<WindowSettings, EngineError>)
        ensures
            self.window is None <==> r == Err::<WindowSettings, EngineError>(
                EngineError::WindowCreationFailed,
            ),
            self.window matches Some(w) ==> r matches Ok(s) && w.settings_of(s),
    {
        match self.window {
            Some(w) => Ok(w.settings()),
            None => Err(EngineError::WindowCreationFailed),
        }
    }

    /// Hands the builder to `run`, which starts the engine, and returns what
    /// it returns.
    pub fn build_and_run<E>(self, run: impl Fn(WgpuEngineBuilder) -> Result<(), E>) -> (r: Result<
        (),
        E,
    >)
        requires
            run.requires((self,)),
        ensures
            run.ensures((self,), r),
    {
        run(self)
    }
}

} // verus!
