use std::sync::Arc;

use runst::config::{Config, Geometry, GlobalConfig};
use runst::draw::DrawAction;
use runst::error::BackendError;
use runst::host::Host;
use runst::state::{
    Capability, ChannelEvent, PointerEvent, PointerEventKind, PressAction, WaylandEvent,
    WaylandState, WindowAction,
};
use runst::template::{WindowRenderState, NOTIFICATION_MESSAGE_TEMPLATE};

struct Desk;

impl Host for Desk {
    type Notification = &'static str;
    type Manager = &'static str;
    type OnPress = &'static str;
    type Urgencies = ();
    type Connection = ();
    type Pointer = u8;
    type EventSender = ();
    type Runtime = ();
    type X11Window = ();
}

fn fresh(width: u32, height: u32) -> WaylandState<Desk> {
    let window = WindowRenderState::new("hi", "Sans").unwrap_or_else(|e| panic!("{e:?}"));
    let geometry = Geometry { x: 1, y: 2, width, height };
    WaylandState::new(geometry, window)
}

fn config(wrap_content: bool) -> Arc<Config<Desk>> {
    Arc::new(Config {
        global: GlobalConfig {
            geometry: Geometry { x: 0, y: 0, width: 10, height: 10 },
            wrap_content,
            font: "Sans".to_string(),
            template: "hi".to_string(),
        },
        urgencies: (),
    })
}

fn attached(width: u32, height: u32) -> WaylandState<Desk> {
    let mut state = fresh(width, height);
    state.attach("store", config(true), "handler");
    state
}

const SHOW: ChannelEvent = ChannelEvent::Msg(WaylandEvent::Show);

#[test]
fn fresh_window() {
    let state = fresh(300, 20);
    assert!(state.first_configure);
    assert!(!state.configured);
    assert_eq!((state.width, state.height), (300, 20));
    assert!(state.pointer.is_none());
    assert!(state.pending_draw.is_none());
    assert!(state.manager.is_none());
    assert!(state.config.is_none());
    assert!(state.on_press.is_none());
}

#[test]
fn shared_template_renders_the_same() {
    let state = fresh(1, 1);
    let shared = state.shared_template();
    let text = shared
        .render(NOTIFICATION_MESSAGE_TEMPLATE, &tera::Context::new())
        .unwrap();
    assert_eq!(text, "hi");
    let mut copy = (*shared).clone();
    let answer = copy.render_str("{{ 2 | humantime }}", &tera::Context::new());
    assert_eq!(answer.unwrap(), "2s");
}

#[test]
fn show_before_configure_draws_nothing() {
    let state = attached(300, 20);
    assert_eq!(
        state.handle_event(WaylandEvent::Show),
        vec![
            WindowAction::SetSize { width: 300, height: 20 },
            WindowAction::Commit,
        ]
    );
}

#[test]
fn show_without_a_store_draws_nothing() {
    let mut state = fresh(300, 20);
    state.configure(0, 0);
    assert_eq!(state.handle_channel(SHOW).len(), 2);
    assert!(state.queue_draw("lost", 1).is_empty());
    assert!(state.pending_draw.is_none());
}

#[test]
fn show_asks_for_the_last_unread() {
    let mut state = attached(300, 20);
    assert!(state.configure(0, 40).is_none());
    assert_eq!(
        state.handle_channel(SHOW),
        vec![
            WindowAction::SetSize { width: 300, height: 40 },
            WindowAction::Commit,
            WindowAction::QueryUnread,
        ]
    );
    assert_eq!(state.queue_draw("n", 3), vec![WindowAction::CommitSurface]);
    let pending = state.pending_draw.as_ref().unwrap();
    assert_eq!((pending.notification, pending.unread_count), ("n", 3));
}

#[test]
fn hide_shrinks_and_show_restores() {
    let state = attached(300, 20);
    assert_eq!(
        state.handle_event(WaylandEvent::Hide),
        vec![
            WindowAction::SetSize { width: 1, height: 1 },
            WindowAction::Commit,
        ]
    );
    assert_eq!(
        state.handle_event(WaylandEvent::Show)[0],
        WindowAction::SetSize { width: 300, height: 20 }
    );
}

#[test]
fn messages_are_answered_in_turn() {
    let state = attached(3, 4);
    let hide = ChannelEvent::Msg(WaylandEvent::Hide);
    let mut actions = Vec::new();
    for event in [SHOW, hide, ChannelEvent::Closed, SHOW] {
        actions.extend(state.handle_channel(event));
    }
    let shown = WindowAction::SetSize { width: 3, height: 4 };
    let hidden = WindowAction::SetSize { width: 1, height: 1 };
    assert_eq!(
        actions,
        vec![
            shown,
            WindowAction::Commit,
            hidden,
            WindowAction::Commit,
            shown,
            WindowAction::Commit,
        ]
    );
}

#[test]
fn closed_channel_sets_nothing_off() {
    assert!(attached(3, 4).handle_channel(ChannelEvent::Closed).is_empty());
}

#[test]
fn frame_draws_the_latest_once() {
    let mut state = attached(300, 20);
    state.configure(0, 0);
    state.queue_draw("old", 1);
    state.queue_draw("new", 2);
    match state.frame() {
        Some(Ok((drawing, turn))) => {
            assert_eq!(drawing.request.notification, "new");
            assert_eq!(drawing.request.unread_count, 2);
            assert!(drawing.wrap_content);
            assert_eq!(turn.actions, vec![DrawAction::RunCommands]);
            assert!(turn.result.is_none());
        }
        _ => panic!("a drawing was expected"),
    }
    assert!(state.frame().is_none());
}

#[test]
fn configure_takes_over_dimensions() {
    let mut state = fresh(300, 20);
    assert!(state.configure(0, 0).is_none());
    assert!(state.configured && !state.first_configure);
    assert_eq!((state.width, state.height), (300, 20));
    state.configure(5, 0);
    assert_eq!((state.width, state.height), (5, 20));
    state.configure(0, 6);
    assert_eq!((state.width, state.height), (5, 6));
    state.configure(7, 8);
    assert_eq!((state.width, state.height), (7, 8));
}

#[test]
fn later_configure_keeps_the_drawing() {
    let mut state = attached(300, 20);
    state.configure(0, 0);
    state.queue_draw("n", 1);
    assert!(state.configure(9, 9).is_none());
    assert!(state.pending_draw.is_some());
}

#[test]
fn first_configure_starts_what_waits() {
    let mut state = attached(300, 20);
    state.configure(0, 0);
    state.queue_draw("n", 1);
    state.first_configure = true;
    match state.configure(0, 0) {
        Some(Ok((drawing, _))) => assert_eq!(drawing.request.notification, "n"),
        _ => panic!("a drawing was expected"),
    }
    assert!(state.pending_draw.is_none());
}

#[test]
fn drawing_needs_a_configuration() {
    let mut state = attached(300, 20);
    state.configure(0, 0);
    state.queue_draw("n", 1);
    state.config = None;
    match state.frame() {
        Some(Err(BackendError::Init(text))) => assert_eq!(text, "missing config"),
        _ => panic!("a failure was expected"),
    }
}

#[test]
fn pointer_comes_and_goes() {
    let mut state = fresh(1, 1);
    assert!(!state.new_capability(Capability::Keyboard));
    assert!(!state.new_capability(Capability::Touch));
    assert!(!state.new_capability(Capability::Other));
    assert!(state.new_capability(Capability::Pointer));
    state.pointer_answer(Err::<u8, &str>("no"));
    assert_eq!(state.pointer, None);
    state.pointer_answer(Ok::<u8, &str>(7));
    assert_eq!(state.pointer, Some(7));
    assert!(!state.new_capability(Capability::Pointer));
    state.remove_capability(Capability::Keyboard);
    assert_eq!(state.pointer, Some(7));
    state.remove_capability(Capability::Pointer);
    assert_eq!(state.pointer, None);
    assert!(state.new_capability(Capability::Pointer));
}

const PRESS: [PressAction; 3] = [
    PressAction::GetLastUnread,
    PressAction::MarkLastAsRead,
    PressAction::OnPress,
];

fn event(surface: u32, kind: PointerEventKind) -> PointerEvent {
    PointerEvent { surface, kind }
}

#[test]
fn presses_on_the_window_count() {
    let state = attached(1, 1);
    let events = vec![
        event(4, PointerEventKind::Enter),
        event(4, PointerEventKind::Press),
        event(5, PointerEventKind::Press),
        event(4, PointerEventKind::Release),
        event(4, PointerEventKind::Motion),
        event(4, PointerEventKind::Axis),
        event(4, PointerEventKind::Press),
        event(4, PointerEventKind::Leave),
    ];
    assert_eq!(state.pointer_frame(4, &events), [PRESS, PRESS].concat());
    let mut apart = state.pointer_frame(4, &events[..3]);
    apart.extend(state.pointer_frame(4, &events[3..]));
    assert_eq!(apart, [PRESS, PRESS].concat());
    assert_eq!(state.pointer_frame(5, &events), PRESS.to_vec());
    assert!(state.pointer_frame(6, &events).is_empty());
    assert!(state.pointer_frame(4, &[]).is_empty());
}

#[test]
fn presses_need_store_and_handler() {
    let events = vec![event(4, PointerEventKind::Press)];
    assert!(fresh(1, 1).pointer_frame(4, &events).is_empty());
    let mut state = attached(1, 1);
    state.on_press = None;
    assert!(state.pointer_frame(4, &events).is_empty());
    let mut state = attached(1, 1);
    state.manager = None;
    assert!(state.pointer_frame(4, &events).is_empty());
}
