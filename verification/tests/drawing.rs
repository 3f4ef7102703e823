use std::sync::Arc;

use runst::backend::{BackendWindow, Wayland, WaylandWindow};
use runst::config::{Config, Geometry, GlobalConfig};
use runst::draw::{
    read_signed, DrawAction, DrawPhase, DrawReply, DrawTurn, Drawing, Ink,
};
use runst::error::BackendError;
use runst::host::Host;
use runst::state::{DrawRequest, WaylandState};
use runst::template::WindowRenderState;

struct Desk;

impl Host for Desk {
    type Notification = u32;
    type Manager = ();
    type OnPress = ();
    type Urgencies = ();
    type Connection = ();
    type Pointer = ();
    type EventSender = ();
    type Runtime = ();
    type X11Window = ();
}

fn state(width: u32, height: u32, wrap_content: bool) -> WaylandState<Desk> {
    let geometry = Geometry { x: 0, y: 0, width, height };
    let window = WindowRenderState::new("hi", "Sans").unwrap_or_else(|e| panic!("{e:?}"));
    let mut state = WaylandState::new(geometry, window);
    let global = GlobalConfig {
        geometry,
        wrap_content,
        font: "Sans".to_string(),
        template: "hi".to_string(),
    };
    state.attach((), Arc::new(Config { global, urgencies: () }), ());
    state
}

fn start(state: &WaylandState<Desk>) -> (Drawing<Desk>, Vec<DrawAction>) {
    let request = DrawRequest { notification: 9, unread_count: 5 };
    match state.draw(request) {
        Ok((drawing, turn)) => {
            assert!(turn.result.is_none());
            (drawing, turn.actions)
        }
        Err(error) => panic!("{error:?}"),
    }
}

fn done() -> DrawReply {
    DrawReply::Done
}

fn message() -> DrawReply {
    DrawReply::Message("text".to_string())
}

/// Runs a drawing through the answers; gives all that was done and the result.
fn run(
    state: &mut WaylandState<Desk>,
    replies: Vec<DrawReply>,
) -> (Vec<DrawAction>, Option<Result<(), BackendError>>, Drawing<Desk>) {
    let (mut drawing, mut actions) = start(state);
    let mut result = None;
    for reply in replies {
        let turn: DrawTurn = state.resume_draw(&mut drawing, reply);
        actions.extend(turn.actions);
        if turn.result.is_some() {
            result = turn.result;
        }
    }
    (actions, result, drawing)
}

fn canvas(width: i32, height: i32) -> Vec<DrawAction> {
    let stride = width * 4;
    vec![
        DrawAction::RunCommands,
        DrawAction::RenderMessage { unread_count: 5 },
        DrawAction::CreateBuffer { width, height, stride },
        DrawAction::CreateImage { width, height, stride },
        DrawAction::CreateContext,
        DrawAction::CreateLayout,
        DrawAction::SetSource { ink: Ink::Background },
        DrawAction::Fill,
        DrawAction::Paint,
        DrawAction::SetSource { ink: Ink::Foreground },
        DrawAction::MoveTo { x: 0, y: 0 },
        DrawAction::SetMarkup,
    ]
}

fn ending(width: i32, height: i32) -> Vec<DrawAction> {
    vec![
        DrawAction::ShowLayout,
        DrawAction::Damage { x: 0, y: 0, width, height },
        DrawAction::RequestFrame,
        DrawAction::AttachBuffer,
        DrawAction::Commit,
    ]
}

#[test]
fn good_drawing_of_fixed_size() {
    let mut state = state(300, 20, false);
    let replies = vec![done(), message(), done(), done(), done(), done(), done(), done()];
    let (actions, result, drawing) = run(&mut state, replies);
    assert_eq!(actions, [canvas(300, 20), ending(300, 20)].concat());
    assert!(matches!(result, Some(Ok(()))));
    assert_eq!((state.width, state.height), (300, 20));
    assert_eq!(drawing.message, "text");
    assert_eq!(drawing.request.notification, 9);
    assert_eq!(drawing.phase, DrawPhase::Ended);
}

#[test]
fn drawing_renders_what_the_backend_renders() {
    let state = state(300, 20, false);
    let (drawing, _) = start(&state);
    let drawn = drawing.message_job(&state, Some("low".to_string()));
    assert_eq!((*drawn.notification, drawn.unread_count), (9, 5));
    assert_eq!(drawn.urgency_text, Some("low".to_string()));

    let window = BackendWindow::from_wayland(WaylandWindow::new((), &state, ()));
    let backend: Wayland<Desk> = Wayland { connection: () };
    let asked = backend
        .render_message(&window, &9, Some("low".to_string()), 5)
        .unwrap_or_else(|e| panic!("{e:?}"));
    assert_eq!(*drawn.notification, *asked.notification);
    assert_eq!(drawn.unread_count, asked.unread_count);
    for job in [drawn, asked] {
        let text = job
            .template
            .render("notification_message_template", &tera::Context::new())
            .unwrap();
        assert_eq!(text, "hi");
    }
}

#[test]
fn good_drawing_of_measured_size() {
    let mut state = state(300, 20, true);
    let measured = DrawReply::Measured { width: 120, height: 34 };
    let replies = vec![
        done(),
        message(),
        done(),
        done(),
        done(),
        done(),
        done(),
        measured,
        done(),
    ];
    let (actions, result, _) = run(&mut state, replies);
    let resize = vec![DrawAction::Measure, DrawAction::SetSize(120, 34)];
    assert_eq!(actions, [canvas(300, 20), resize, ending(300, 20)].concat());
    assert!(matches!(result, Some(Ok(()))));
    assert_eq!((state.width, state.height), (120, 34));
}

#[test]
fn measured_size_is_at_least_one() {
    let mut state = state(300, 20, true);
    let measured = DrawReply::Measured { width: 0, height: -7 };
    let replies = vec![
        done(),
        message(),
        done(),
        done(),
        done(),
        done(),
        done(),
        measured,
    ];
    let (actions, result, _) = run(&mut state, replies);
    assert!(actions.contains(&DrawAction::SetSize(1, 1)));
    assert!(result.is_none());
    assert_eq!((state.width, state.height), (1, 1));
}

#[test]
fn empty_window_gets_one_pixel() {
    let mut state = state(0, 0, false);
    let replies = vec![done(), message(), done(), done(), done(), done(), done(), done()];
    let (actions, _, _) = run(&mut state, replies);
    assert_eq!(actions, [canvas(1, 1), ending(1, 1)].concat());
    assert_eq!((state.width, state.height), (0, 0));
}

#[test]
fn wide_rows_wrap_to_negative_strides() {
    let mut state = state(0x2000_0000, 0x8000_0000, false);
    let (actions, _, _) = run(&mut state, vec![done(), message()]);
    assert_eq!(
        actions[2],
        DrawAction::CreateBuffer { width: 0x2000_0000, height: i32::MIN, stride: i32::MIN }
    );
}

#[test]
fn signed_reading() {
    assert_eq!(read_signed(0), 0);
    assert_eq!(read_signed(0x7fff_ffff), i32::MAX);
    assert_eq!(read_signed(0x8000_0000), i32::MIN);
    assert_eq!(read_signed(u32::MAX), -1);
}

#[test]
fn host_failures_are_handed_on() {
    let failure = || DrawReply::Failed(BackendError::Host("exit 1".to_string()));
    for replies in [vec![failure()], vec![done(), failure()]] {
        let count = replies.len();
        let mut state = state(300, 20, false);
        let (actions, result, drawing) = run(&mut state, replies);
        assert_eq!(actions, canvas(300, 20)[..count].to_vec());
        assert!(matches!(result, Some(Err(BackendError::Host(text))) if text == "exit 1"));
        assert_eq!(drawing.phase, DrawPhase::Ended);
    }
}

fn refused_after(good: Vec<DrawReply>) -> (Vec<DrawAction>, Option<Result<(), BackendError>>) {
    let mut replies = good;
    replies.push(DrawReply::Refused("no".to_string()));
    replies.push(done());
    let mut state = state(300, 20, false);
    let (actions, result, _) = run(&mut state, replies);
    (actions, result)
}

#[test]
fn refused_buffer() {
    let (actions, result) = refused_after(vec![done(), message()]);
    assert_eq!(actions, canvas(300, 20)[..3].to_vec());
    assert!(matches!(result, Some(Err(BackendError::Wayland(text))) if text == "no"));
}

#[test]
fn refused_by_the_drawing_library() {
    let replies = || vec![done(), message(), done(), done(), done(), done()];
    for (good, count) in [(3, 4), (4, 5), (5, 8), (6, 9)] {
        let mut sent = replies();
        sent.truncate(good);
        let (actions, result) = refused_after(sent);
        assert_eq!(actions, canvas(300, 20)[..count].to_vec());
        assert!(matches!(result, Some(Err(BackendError::Cairo(text))) if text == "no"));
    }
}

#[test]
fn refused_attachment() {
    let good = vec![done(), message(), done(), done(), done(), done(), done()];
    let (actions, result) = refused_after(good);
    assert!(!actions.contains(&DrawAction::Commit));
    assert_eq!(actions.last(), Some(&DrawAction::AttachBuffer));
    assert!(
        matches!(result, Some(Err(BackendError::Wayland(text))) if text == "buffer attach error: no")
    );
}

#[test]
fn unfit_answers_lead_to_nothing() {
    let mut state = state(300, 20, false);
    let (mut drawing, _) = start(&state);
    for reply in [
        message(),
        DrawReply::Measured { width: 1, height: 1 },
        DrawReply::Refused("no".to_string()),
    ] {
        let turn = state.resume_draw(&mut drawing, reply);
        assert!(turn.actions.is_empty());
        assert!(turn.result.is_none());
        assert_eq!(drawing.phase, DrawPhase::Commands);
    }
}

#[test]
fn no_drawing_without_configuration() {
    let mut state = state(300, 20, false);
    state.config = None;
    let outcome = state.draw(DrawRequest { notification: 1, unread_count: 1 });
    assert!(matches!(outcome, Err(BackendError::Init(text)) if text == "missing config"));
}
