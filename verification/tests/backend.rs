use std::sync::Arc;

use runst::backend::{delivered, BackendWindow, Wayland, WaylandWindow};
use runst::error::{init_error, wayland_error, BackendError};
use runst::events::{
    claim_runtime, lock_poisoned, EventPump, LoopAction, LoopPhase, DISPATCH_TIMEOUT,
};
use runst::host::Host;
use runst::config::{Geometry, GlobalConfig};
use runst::setup::{SetupAction, SetupPhase};
use runst::state::{WaylandEvent, WaylandState};
use runst::template::WindowRenderState;

struct Desk;

impl Host for Desk {
    type Notification = u32;
    type Manager = ();
    type OnPress = ();
    type Urgencies = ();
    type Connection = &'static str;
    type Pointer = ();
    type EventSender = &'static str;
    type Runtime = u8;
    type X11Window = ();
}

fn own() -> BackendWindow<Desk> {
    let mut template = tera::Tera::default();
    template.add_raw_template("t", "mine").unwrap();
    BackendWindow::Wayland(Arc::new(WaylandWindow {
        event_sender: "sender",
        template: Arc::new(template),
        runtime: 3,
    }))
}

fn foreign() -> BackendWindow<Desk> {
    BackendWindow::X11(Arc::new(()))
}

fn backend() -> Wayland<Desk> {
    Wayland::init(Ok("wire")).unwrap_or_else(|e| panic!("{e:?}"))
}

fn is_invalid<T>(outcome: Result<T, BackendError>) -> bool {
    matches!(outcome, Err(BackendError::Init(text)) if text == "invalid backend window")
}

#[test]
fn connecting() {
    assert_eq!(backend().connection, "wire");
    let failed: Result<Wayland<Desk>, BackendError> = Wayland::init(Err("no".to_string()));
    assert!(
        matches!(failed, Err(BackendError::Wayland(text)) if text == "connection error: no")
    );
}

#[test]
fn show_and_hide_go_to_the_window() {
    let window = own();
    let backend = backend();
    let shown = backend.show_window(&window).unwrap_or_else(|e| panic!("{e:?}"));
    assert_eq!((*shown.event_sender, shown.event), ("sender", WaylandEvent::Show));
    let hidden = backend.hide_window(&window).unwrap_or_else(|e| panic!("{e:?}"));
    assert_eq!((*hidden.event_sender, hidden.event), ("sender", WaylandEvent::Hide));
}

#[test]
fn requests_are_queued_in_order() {
    let (first, second) = (own(), BackendWindow::from_wayland(WaylandWindow::new("b", &state("x"), 1)));
    let backend = backend();
    let (mut own_queue, mut other_queue) = (Vec::new(), Vec::new());
    for delivery in [
        backend.show_window(&first),
        backend.hide_window(&first),
        backend.hide_window(&second),
        backend.show_window(&first),
    ] {
        let delivery = delivery.unwrap_or_else(|e| panic!("{e:?}"));
        match *delivery.event_sender {
            "sender" => own_queue.push(delivery.event),
            _ => other_queue.push(delivery.event),
        }
    }
    assert_eq!(own_queue, vec![WaylandEvent::Show, WaylandEvent::Hide, WaylandEvent::Show]);
    assert_eq!(other_queue, vec![WaylandEvent::Hide]);
}

#[test]
fn events_and_messages_go_to_the_window() {
    let window = own();
    let backend = backend();
    let found = backend.handle_events(&window).unwrap_or_else(|e| panic!("{e:?}"));
    assert_eq!(found.runtime, 3);
    let job = backend
        .render_message(&window, &17, Some("low".to_string()), 4)
        .unwrap_or_else(|e| panic!("{e:?}"));
    assert_eq!(*job.notification, 17);
    assert_eq!(job.urgency_text, Some("low".to_string()));
    assert_eq!(job.unread_count, 4);
    let text = job.template.render("t", &tera::Context::new()).unwrap();
    assert_eq!(text, "mine");
}

fn state(template: &str) -> WaylandState<Desk> {
    let window = WindowRenderState::new(template, "Sans").unwrap_or_else(|e| panic!("{e:?}"));
    WaylandState::new(Geometry { x: 0, y: 0, width: 3, height: 2 }, window)
}

fn message(backend: &Wayland<Desk>, window: &BackendWindow<Desk>) -> String {
    let job = backend
        .render_message(window, &1, None, 0)
        .unwrap_or_else(|e| panic!("{e:?}"));
    job.template
        .render("notification_message_template", &tera::Context::new())
        .unwrap()
}

#[test]
fn window_is_made_of_its_parts() {
    let state = state(" {{ 90 | humantime }} ");
    let window = WaylandWindow::new("mine", &state, 5);
    assert_eq!((window.event_sender, window.runtime), ("mine", 5));
    assert_eq!(message(&backend(), &BackendWindow::from_wayland(window)), "1m 30s");
}

#[test]
fn windows_are_independent() {
    let mut backend = backend();
    let (first, second) = (config("first"), config("second"));
    let (first_setup, _) = backend.create_window(&first);
    let (second_setup, turn) = backend.create_window(&second);
    assert_eq!(backend.connection, "wire");
    assert_eq!(turn.actions, vec![SetupAction::InitRegistry]);
    assert_eq!(second_setup.phase, SetupPhase::Registry);
    assert_eq!(first_setup.config.template, "first");
    assert_eq!(second_setup.config.template, "second");

    let one = BackendWindow::from_wayland(WaylandWindow::new("one", &state("first"), 1));
    let two = BackendWindow::from_wayland(WaylandWindow::new("two", &state("second"), 2));
    let shown = backend.show_window(&one).unwrap_or_else(|e| panic!("{e:?}"));
    let hidden = backend.hide_window(&two).unwrap_or_else(|e| panic!("{e:?}"));
    assert_eq!((*shown.event_sender, shown.event), ("one", WaylandEvent::Show));
    assert_eq!((*hidden.event_sender, hidden.event), ("two", WaylandEvent::Hide));
    assert_eq!(message(&backend, &one), "first");
    assert_eq!(message(&backend, &two), "second");
}

fn config(template: &str) -> GlobalConfig {
    GlobalConfig {
        geometry: Geometry { x: 0, y: 0, width: 3, height: 2 },
        wrap_content: false,
        font: "Sans".to_string(),
        template: template.to_string(),
    }
}

#[test]
fn foreign_windows_are_refused() {
    let window = foreign();
    let backend = backend();
    assert!(is_invalid(backend.show_window(&window)));
    assert!(is_invalid(backend.hide_window(&window)));
    assert!(is_invalid(backend.handle_events(&window)));
    assert!(is_invalid(backend.render_message(&window, &1, None, 0)));
    assert!(is_invalid(window.wayland()));
}

#[test]
fn deliveries() {
    assert!(delivered(Ok(())).is_ok());
    let failed = delivered(Err("closed".to_string()));
    assert!(matches!(failed, Err(BackendError::Wayland(text)) if text == "send error: closed"));
}

#[test]
fn runtime_is_claimed_once() {
    let mut slot = Some(8);
    assert!(matches!(claim_runtime(&mut slot), Ok(8)));
    assert_eq!(slot, None);
    let again = claim_runtime(&mut slot);
    assert!(
        matches!(again, Err(BackendError::Init(text)) if text == "wayland runtime already started")
    );
    assert!(
        matches!(lock_poisoned(), BackendError::Init(text) if text == "wayland runtime lock poisoned")
    );
}

#[test]
fn event_loop_runs_on() {
    let (mut pump, mut actions) = EventPump::start();
    for _ in 0..6 {
        actions.extend(pump.resume(Ok(())).unwrap_or_else(|e| panic!("{e:?}")));
    }
    let dispatch = LoopAction::Dispatch { timeout_ms: 16 };
    assert_eq!(DISPATCH_TIMEOUT, 16);
    assert_eq!(
        actions,
        vec![
            LoopAction::CreateLoop,
            LoopAction::InsertSource,
            LoopAction::Attach,
            LoopAction::InsertChannel,
            dispatch,
            dispatch,
            dispatch,
            dispatch,
        ]
    );
    assert_eq!(pump.phase, LoopPhase::Dispatch);
}

#[test]
fn event_loop_ends_with_a_failure() {
    for (turns, words) in [
        (0, "loop error: no"),
        (1, "wayland source error: no"),
        (2, "channel error: no"),
        (3, "loop dispatch error: no"),
        (9, "loop dispatch error: no"),
    ] {
        let (mut pump, _) = EventPump::start();
        for _ in 0..turns {
            assert!(pump.resume(Ok(())).is_ok());
        }
        let failed = pump.resume(Err("no".to_string()));
        assert!(matches!(failed, Err(BackendError::Wayland(text)) if text == words));
        assert_eq!(pump.phase, LoopPhase::Ended);
    }
}

#[test]
fn error_texts() {
    assert!(matches!(wayland_error("a: ", "b"), BackendError::Wayland(text) if text == "a: b"));
    assert!(matches!(init_error("x"), BackendError::Init(text) if text == "x"));
}
