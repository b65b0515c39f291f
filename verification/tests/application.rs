use std::cell::RefCell;
use std::rc::Rc;

use simulacra::application::{Application, RunError};
use simulacra::events::{Event, EventHandler, Key};
use simulacra::layers::Layer;
use simulacra::renderer::context::RenderingContext;
use simulacra::renderer::shader::OpenGLShader;
use simulacra::window::{Window, WindowProps};

/// A surface that produces no events: frames run forever until something
/// else queues a close.
struct IdleWindow {
    props: WindowProps,
}

impl Window for IdleWindow {
    fn new(props: WindowProps) -> Self {
        IdleWindow { props }
    }

    fn on_update(&mut self, _event_queue: &mut Vec<Event>) {}

    fn get_title(&self) -> &str {
        &self.props.title
    }

    fn get_width(&self) -> u32 {
        self.props.width
    }

    fn get_height(&self) -> u32 {
        self.props.height
    }
}

impl RenderingContext for IdleWindow {
    fn init(&mut self) {}

    fn swap_buffers(&mut self) {}
}

/// A surface that reports a close event on every update, as a platform
/// window does once its close button was hit.
struct ClosingWindow {
    props: WindowProps,
}

impl Window for ClosingWindow {
    fn new(props: WindowProps) -> Self {
        ClosingWindow { props }
    }

    fn on_update(&mut self, event_queue: &mut Vec<Event>) {
        event_queue.push(Event::WindowClose);
    }

    fn get_title(&self) -> &str {
        &self.props.title
    }

    fn get_width(&self) -> u32 {
        self.props.width
    }

    fn get_height(&self) -> u32 {
        self.props.height
    }
}

impl RenderingContext for ClosingWindow {
    fn init(&mut self) {}

    fn swap_buffers(&mut self) {}
}

type CallLog = Rc<RefCell<Vec<(u64, String, Vec<Event>)>>>;

/// A layer that records every hook call in a log shared with the test, and
/// leaves a marker event in the queue so later layers can see it ran.
struct RecorderLayer {
    id: u64,
    log: CallLog,
}

impl RecorderLayer {
    fn marker(id: u64) -> Event {
        Event::MouseMoved { x: 100 + id, y: 0 }
    }
}

impl EventHandler for RecorderLayer {
    fn handle_events(&mut self, events: &mut Vec<Event>) {
        self.log.borrow_mut().push((self.id, "events".to_string(), events.clone()));
        events.push(RecorderLayer::marker(self.id));
    }
}

impl Layer for RecorderLayer {
    fn on_attach(&mut self) {
        self.log.borrow_mut().push((self.id, "attach".to_string(), Vec::new()));
    }

    fn on_detach(&mut self) {
        self.log.borrow_mut().push((self.id, "detach".to_string(), Vec::new()));
    }
}

fn props(title: &str, width: u32, height: u32) -> WindowProps {
    WindowProps { title: title.to_string(), width, height }
}

#[test]
fn new_application_is_stopped_and_empty() {
    let app = Application::<IdleWindow, RecorderLayer>::new();
    assert!(!app.is_initialized());
    assert!(!app.is_running());
    assert!(app.queued_events().is_empty());
    assert_eq!(app.layer_count(), 0);
}

#[test]
fn init_starts_the_state_machine() {
    let mut app = Application::<IdleWindow, RecorderLayer>::from_props(props("T", 800, 600));
    assert!(!app.is_initialized());
    app.init();
    assert!(app.is_initialized());
    assert!(app.is_running());
}

#[test]
fn run_without_init_is_refused() {
    let mut app = Application::<IdleWindow, RecorderLayer>::new();
    let outcome = app.run_frame();
    assert_eq!(outcome, Err(RunError::NotInitialized));
    assert!(!app.is_running());
    assert!(!app.is_initialized());
    assert!(app.queued_events().is_empty());
}

#[test]
fn close_event_stops_the_application() {
    let mut app = Application::<IdleWindow, RecorderLayer>::from_props(props("T", 320, 200));
    app.init();
    assert!(app.is_running());
    app.push_event(Event::WindowClose);
    app.handle_events();
    assert!(!app.is_running());
    assert!(app.queued_events().is_empty());
}

#[test]
fn close_position_does_not_matter() {
    let mut app = Application::<IdleWindow, RecorderLayer>::from_props(props("T", 320, 200));
    app.init();
    app.push_event(Event::AppTick);
    app.push_event(Event::WindowClose);
    app.push_event(Event::KeyPressed { key: Key::Q });
    app.handle_events();
    assert!(!app.is_running());
}

#[test]
fn multiple_close_events_are_idempotent() {
    let mut app = Application::<IdleWindow, RecorderLayer>::from_props(props("T", 320, 200));
    app.init();
    app.push_event(Event::WindowClose);
    app.push_event(Event::WindowClose);
    app.push_event(Event::WindowClose);
    app.handle_events();
    assert!(!app.is_running());
    assert!(app.queued_events().is_empty());
}

#[test]
fn empty_queue_close_check_keeps_running() {
    let mut app = Application::<IdleWindow, RecorderLayer>::from_props(props("T", 320, 200));
    app.init();
    app.handle_events();
    assert!(app.is_running());
    assert!(app.queued_events().is_empty());
}

#[test]
fn non_close_events_do_not_stop() {
    let mut app = Application::<IdleWindow, RecorderLayer>::from_props(props("T", 320, 200));
    app.init();
    app.push_event(Event::AppTick);
    app.push_event(Event::MouseMoved { x: 1, y: 2 });
    app.handle_events();
    assert!(app.is_running());
    assert!(app.queued_events().is_empty());
}

#[test]
fn scenario_close_ends_the_loop() {
    let mut app = Application::<ClosingWindow, RecorderLayer>::from_props(props("T", 800, 600));
    app.init();
    let mut frames: u32 = 0;
    while app.is_running() {
        assert!(frames < 10, "loop should have ended after the first frame");
        assert_eq!(app.run_frame(), Ok(()));
        frames += 1;
    }
    assert_eq!(frames, 1);
    assert!(!app.is_running());
    assert!(app.is_initialized());
}

#[test]
fn stopped_application_does_not_restart() {
    let mut app = Application::<ClosingWindow, RecorderLayer>::from_props(props("T", 800, 600));
    app.init();
    assert_eq!(app.run_frame(), Ok(()));
    assert!(!app.is_running());
    // Driving more frames after termination resumes nothing.
    assert_eq!(app.run_frame(), Ok(()));
    assert_eq!(app.run_frame(), Ok(()));
    assert!(!app.is_running());
    assert!(app.queued_events().is_empty());
}

#[test]
fn push_event_keeps_insertion_order() {
    let mut app = Application::<IdleWindow, RecorderLayer>::new();
    app.push_event(Event::AppTick);
    app.push_event(Event::MouseMoved { x: 1, y: 2 });
    app.push_event(Event::AppRender);
    assert_eq!(
        app.queued_events(),
        &vec![Event::AppTick, Event::MouseMoved { x: 1, y: 2 }, Event::AppRender],
    );
}

#[test]
fn push_layer_attaches_exactly_once() {
    let log: CallLog = Rc::new(RefCell::new(Vec::new()));
    let mut app = Application::<IdleWindow, RecorderLayer>::new();
    app.push_layer(RecorderLayer { id: 1, log: Rc::clone(&log) });
    app.push_layer(RecorderLayer { id: 2, log: Rc::clone(&log) });
    assert_eq!(app.layer_count(), 2);
    let calls = log.borrow();
    assert_eq!(calls.len(), 2);
    assert_eq!((calls[0].0, calls[0].1.as_str()), (1, "attach"));
    assert_eq!((calls[1].0, calls[1].1.as_str()), (2, "attach"));
}

#[test]
fn dispatch_visits_layers_in_reverse_order() {
    let log: CallLog = Rc::new(RefCell::new(Vec::new()));
    let mut app = Application::<IdleWindow, RecorderLayer>::new();
    for id in [1, 2, 3] {
        app.push_layer(RecorderLayer { id, log: Rc::clone(&log) });
    }
    log.borrow_mut().clear();
    app.dispatch_to_layers();
    let calls = log.borrow();
    let order: Vec<u64> = calls.iter().map(|c| c.0).collect();
    assert_eq!(order, vec![3, 2, 1]);
}

#[test]
fn later_layer_observes_events_first() {
    let log: CallLog = Rc::new(RefCell::new(Vec::new()));
    let mut app = Application::<IdleWindow, RecorderLayer>::new();
    app.push_layer(RecorderLayer { id: 1, log: Rc::clone(&log) });
    app.push_layer(RecorderLayer { id: 2, log: Rc::clone(&log) });
    log.borrow_mut().clear();
    let moved = Event::MouseMoved { x: 7, y: 9 };
    app.push_event(moved);
    app.dispatch_to_layers();
    let calls = log.borrow();
    assert_eq!(calls.len(), 2);
    // The layer pushed last runs first and sees the queued event untouched.
    assert_eq!(calls[0].0, 2);
    assert_eq!(calls[0].2, vec![moved]);
    // The layer pushed first runs second: it sees the same event, plus the
    // trace the later layer left behind.
    assert_eq!(calls[1].0, 1);
    assert_eq!(calls[1].2, vec![moved, RecorderLayer::marker(2)]);
}

#[test]
fn queue_is_empty_between_frames() {
    let log: CallLog = Rc::new(RefCell::new(Vec::new()));
    let mut app = Application::<IdleWindow, RecorderLayer>::from_props(props("T", 640, 480));
    app.init();
    app.push_layer(RecorderLayer { id: 1, log: Rc::clone(&log) });
    app.push_event(Event::AppTick);
    assert_eq!(app.run_frame(), Ok(()));
    assert!(app.is_running());
    assert!(app.queued_events().is_empty());
    assert_eq!(app.run_frame(), Ok(()));
    assert!(app.queued_events().is_empty());
    // The layer's second call therefore started from an empty queue.
    let calls = log.borrow();
    let dispatches: Vec<&Vec<Event>> =
        calls.iter().filter(|c| c.1 == "events").map(|c| &c.2).collect();
    assert_eq!(dispatches.len(), 2);
    assert_eq!(dispatches[0], &vec![Event::AppTick]);
    assert_eq!(dispatches[1], &Vec::<Event>::new());
}

#[test]
fn scenario_full_lifecycle() {
    let mut app = Application::<ClosingWindow, RecorderLayer>::from_props(props("T", 800, 600));
    app.init();
    assert!(app.is_running());
    let mut frames: u32 = 0;
    while app.is_running() {
        assert!(frames < 100);
        assert_eq!(app.run_frame(), Ok(()));
        frames += 1;
    }
    assert!(!app.is_running());
    assert!(app.is_initialized());
    assert!(app.queued_events().is_empty());
}

#[test]
fn shader_handle_keeps_program_id() {
    let shader = OpenGLShader::from_program_id(42);
    assert_eq!(shader.get_program_id(), 42);
    let other = OpenGLShader::from_program_id(0);
    assert_eq!(other.get_program_id(), 0);
}
