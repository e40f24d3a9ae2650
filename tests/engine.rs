use bark_engine::engine::{
    Dispatch, Engine, EngineError, EngineState, PlatformAction, RenderFollowUp, RenderStatus,
};
use bark_engine::event::{InputEvent, WindowEvent};
use bark_engine::layer::Layer;
use bark_engine::platform::{ElementState, PlatformEvent};
use bark_engine::window::WindowSize;
use bark_engine::Event;

const STEP: u64 = 10_000_000;

#[derive(Debug, Default)]
struct Recorder {
    updates: Vec<Vec<Event>>,
    renders: u32,
}

impl Layer for Recorder {
    fn update(&mut self, events: &[Event]) {
        self.updates.push(events.to_vec());
    }

    fn render(&mut self) {
        self.renders += 1;
    }
}

fn redraw() -> Event {
    Event::WindowEvent(WindowEvent::WindowRedrawRequested)
}

fn close() -> Event {
    Event::WindowEvent(WindowEvent::WindowClose)
}

fn key(code: u32) -> Event {
    Event::InputEvent(InputEvent::KeyPressed { keycode: code })
}

fn engine_with_recorder(now: u64) -> Engine<&'static str, Recorder> {
    let mut engine = Engine::new("window", now);
    engine.add_layer(Recorder::default());
    engine
}

#[test]
fn close_shuts_the_engine_down_for_good() {
    let mut engine = engine_with_recorder(0);
    assert_eq!(engine.state(), EngineState::Running);
    assert_eq!(engine.dispatch(close(), 0), Dispatch::CloseRequested);
    assert_eq!(engine.state(), EngineState::ShuttingDown);
    assert!(!engine.is_running());

    assert_eq!(engine.dispatch(redraw(), 50 * STEP), Dispatch::Ignored);
    assert_eq!(engine.dispatch(key(3), 50 * STEP), Dispatch::Ignored);
    assert_eq!(engine.dispatch(close(), 50 * STEP), Dispatch::Ignored);
    assert_eq!(engine.state(), EngineState::ShuttingDown);
    let layer = engine.layers().get(0);
    assert!(layer.updates.is_empty());
    assert_eq!(layer.renders, 0);
    assert_eq!(engine.clock().engine_time(), 0);
    assert_eq!(engine.clock().current_time(), 0);
}

#[test]
fn redraw_without_elapsed_time_renders_once_and_updates_never() {
    let mut engine = engine_with_recorder(1_000);
    let outcome = engine.dispatch(redraw(), 1_000);
    assert_eq!(outcome, Dispatch::Frame { updates: 0, delivered: vec![] });
    let layer = engine.layers().get(0);
    assert_eq!(layer.updates.len(), 0);
    assert_eq!(layer.renders, 1);
}

#[test]
fn redraw_runs_one_update_per_owed_step_and_one_render() {
    let mut engine = engine_with_recorder(0);
    engine.dispatch(key(1), 0);
    engine.dispatch(key(2), 0);
    let outcome = engine.dispatch(redraw(), 35_000_000);
    assert_eq!(outcome, Dispatch::Frame { updates: 3, delivered: vec![key(1), key(2)] });
    assert_eq!(engine.clock().accumulator(), 5_000_000);
    assert_eq!(engine.clock().engine_time(), 30_000_000);
    let layer = engine.layers().get(0);
    assert_eq!(layer.updates, vec![vec![key(1), key(2)], vec![], vec![]]);
    assert_eq!(layer.renders, 1);
}

#[test]
fn other_events_are_buffered_until_a_step_runs() {
    let mut engine = engine_with_recorder(0);
    let resize = Event::WindowEvent(WindowEvent::WindowResize(WindowSize::new(800, 600)));
    assert_eq!(engine.dispatch(resize, 0), Dispatch::Buffered);
    assert_eq!(engine.dispatch(key(9), 0), Dispatch::Buffered);
    assert_eq!(engine.dispatch(redraw(), STEP / 2), Dispatch::Frame { updates: 0, delivered: vec![] });
    assert_eq!(engine.layers().get(0).updates.len(), 0);
    let outcome = engine.dispatch(redraw(), STEP);
    assert_eq!(outcome, Dispatch::Frame { updates: 1, delivered: vec![resize, key(9)] });
    assert_eq!(engine.layers().get(0).updates, vec![vec![resize, key(9)]]);
    assert_eq!(engine.layers().get(0).renders, 2);
}

#[test]
fn stall_runs_at_most_the_catch_up_bound() {
    let mut engine = engine_with_recorder(0);
    let outcome = engine.dispatch(redraw(), 1_000 * STEP + 7);
    assert_eq!(outcome, Dispatch::Frame { updates: 10, delivered: vec![] });
    assert_eq!(engine.clock().accumulator(), 7);
    assert_eq!(engine.layers().get(0).updates.len(), 10);
    assert_eq!(engine.layers().get(0).renders, 1);
}

#[test]
fn layers_run_in_registration_order() {
    let mut engine: Engine<(), Recorder> = Engine::new((), 0);
    engine.add_layer(Recorder::default());
    engine.add_layer(Recorder::default());
    assert_eq!(engine.layers().len(), 2);
    engine.dispatch(key(4), 0);
    engine.dispatch(redraw(), STEP);
    for i in 0..2 {
        assert_eq!(engine.layers().get(i).updates, vec![vec![key(4)]]);
        assert_eq!(engine.layers().get(i).renders, 1);
    }
}

#[test]
fn update_and_render_directly() {
    let mut engine = engine_with_recorder(0);
    engine.dispatch(key(8), 0);
    assert_eq!(engine.update(), vec![key(8)]);
    assert_eq!(engine.update(), vec![]);
    engine.render();
    let layer = engine.layers().get(0);
    assert_eq!(layer.updates, vec![vec![key(8)], vec![]]);
    assert_eq!(layer.renders, 1);
}

#[test]
fn engine_needs_a_window() {
    let missing: Result<Engine<u32, Recorder>, EngineError> = Engine::from_window(None, 0);
    assert_eq!(missing.err(), Some(EngineError::WindowCreationFailed));
    let engine: Engine<u32, Recorder> = Engine::from_window(Some(17), 5).ok().unwrap();
    assert_eq!(*engine.window(), 17);
    assert!(engine.is_running());
    assert_eq!(engine.clock().current_time(), 5);
}

#[test]
fn platform_events_drive_the_engine() {
    let mut engine = engine_with_recorder(0);
    assert_eq!(
        engine.on_platform_event(PlatformEvent::MainEventsCleared, 0),
        PlatformAction::RequestRedraw
    );
    assert_eq!(engine.on_platform_event(PlatformEvent::Other, 0), PlatformAction::Continue);
    let press = PlatformEvent::KeyboardInput { scancode: 30, state: ElementState::Pressed };
    assert_eq!(engine.on_platform_event(press, 0), PlatformAction::Continue);
    assert_eq!(
        engine.on_platform_event(PlatformEvent::RedrawRequested, 2 * STEP),
        PlatformAction::Continue
    );
    assert_eq!(engine.layers().get(0).updates, vec![vec![key(30)], vec![]]);
    assert_eq!(engine.layers().get(0).renders, 1);
    assert_eq!(engine.on_platform_event(PlatformEvent::CloseRequested, 2 * STEP), PlatformAction::Exit);
    assert_eq!(engine.state(), EngineState::ShuttingDown);
    assert_eq!(
        engine.on_platform_event(PlatformEvent::MainEventsCleared, 3 * STEP),
        PlatformAction::Exit
    );
    assert_eq!(engine.on_platform_event(PlatformEvent::RedrawRequested, 9 * STEP), PlatformAction::Exit);
    assert_eq!(engine.layers().get(0).renders, 1);
}

#[test]
fn close_sent_back_as_user_event_exits() {
    let mut engine = engine_with_recorder(0);
    assert_eq!(engine.on_platform_event(PlatformEvent::UserEvent(close()), 0), PlatformAction::Exit);
    assert!(!engine.is_running());
}

#[test]
fn render_failure_policy() {
    let mut engine = engine_with_recorder(0);
    assert_eq!(engine.on_render_result(RenderStatus::Presented), RenderFollowUp::Continue);
    assert_eq!(engine.on_render_result(RenderStatus::SurfaceLost), RenderFollowUp::Reconfigure);
    assert_eq!(engine.on_render_result(RenderStatus::SurfaceOutdated), RenderFollowUp::Reconfigure);
    assert_eq!(engine.on_render_result(RenderStatus::Other), RenderFollowUp::Skip);
    assert!(engine.is_running());
    assert_eq!(engine.on_render_result(RenderStatus::OutOfMemory), RenderFollowUp::Shutdown);
    assert_eq!(engine.state(), EngineState::ShuttingDown);
    assert_eq!(engine.dispatch(redraw(), STEP), Dispatch::Ignored);
}

#[test]
fn new_engine_is_idle() {
    let engine = engine_with_recorder(123);
    assert_eq!(*engine.window(), "window");
    assert!(engine.is_running());
    assert_eq!(engine.clock().current_time(), 123);
    assert_eq!(engine.clock().engine_time(), 0);
    assert_eq!(engine.clock().accumulator(), 0);
    assert_eq!(engine.layers().len(), 1);
}

use std::cell::RefCell;
use std::rc::Rc;

struct Tracer {
    name: &'static str,
    trace: Rc<RefCell<Vec<String>>>,
}

impl Layer for Tracer {
    fn update(&mut self, events: &[Event]) {
        self.trace.borrow_mut().push(format!("{}:update:{}", self.name, events.len()));
    }

    fn render(&mut self) {
        self.trace.borrow_mut().push(format!("{}:render", self.name));
    }
}

#[test]
fn frame_tick_updates_front_to_back_then_renders_once() {
    let trace = Rc::new(RefCell::new(Vec::new()));
    let mut engine: Engine<(), Tracer> = Engine::new((), 0);
    engine.add_layer(Tracer { name: "a", trace: trace.clone() });
    engine.add_layer(Tracer { name: "b", trace: trace.clone() });
    engine.dispatch(key(1), 0);
    let outcome = engine.dispatch(redraw(), 2 * STEP + 1);
    assert_eq!(outcome, Dispatch::Frame { updates: 2, delivered: vec![key(1)] });
    assert_eq!(
        *trace.borrow(),
        vec![
            "a:update:1", "b:update:1", "a:update:0", "b:update:0", "a:render", "b:render"
        ]
    );
}
