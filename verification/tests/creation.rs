use runst::backend::Wayland;
use runst::config::{Geometry, GlobalConfig};
use runst::error::BackendError;
use runst::host::Host;
use runst::setup::{
    Edges, KeyboardInteractivity, Layer, SetupAction, SetupPhase, SetupTurn, WindowSetup,
    LAYER_NAMESPACE,
};
use runst::state::WaylandState;
use runst::template::WindowRenderState;

struct Desk;

impl Host for Desk {
    type Notification = ();
    type Manager = ();
    type OnPress = ();
    type Urgencies = ();
    type Connection = &'static str;
    type Pointer = ();
    type EventSender = ();
    type Runtime = ();
    type X11Window = ();
}

fn config(x: u32, y: u32, template: &str) -> GlobalConfig {
    GlobalConfig {
        geometry: Geometry { x, y, width: 300, height: 20 },
        wrap_content: false,
        font: "Sans".to_string(),
        template: template.to_string(),
    }
}

struct Outcome {
    actions: Vec<SetupAction>,
    state: Option<WaylandState<Desk>>,
    result: Option<Result<(), BackendError>>,
    phase: SetupPhase,
}

fn run(config: &GlobalConfig, answers: Vec<Result<(), String>>) -> Outcome {
    let mut backend: Wayland<Desk> = Wayland { connection: "wire" };
    let (mut setup, turn) = backend.create_window(config);
    let mut actions = turn.actions;
    let mut state = turn.state;
    let mut result = turn.result;
    for answer in answers {
        let turn: SetupTurn<Desk> = setup.resume(answer);
        actions.extend(turn.actions);
        if turn.state.is_some() {
            state = turn.state;
        }
        if turn.result.is_some() {
            result = turn.result;
        }
    }
    Outcome { actions, state, result, phase: setup.phase }
}

fn good(count: usize) -> Vec<Result<(), String>> {
    vec![Ok(()); count]
}

fn good_then_refused(count: usize) -> Vec<Result<(), String>> {
    let mut answers = good(count);
    answers.push(Err("no".to_string()));
    answers
}

fn bound() -> Vec<SetupAction> {
    vec![
        SetupAction::InitRegistry,
        SetupAction::BindCompositor,
        SetupAction::BindLayerShell,
        SetupAction::BindShm,
    ]
}

fn layered() -> Vec<SetupAction> {
    vec![
        SetupAction::CreateSurface,
        SetupAction::CreateLayerSurface { layer: Layer::Overlay },
        SetupAction::SetAnchor {
            edges: Edges { top: true, bottom: false, left: true, right: false },
        },
        SetupAction::SetKeyboardInteractivity { interactivity: KeyboardInteractivity::Never },
        SetupAction::SetExclusiveZone { zone: -1 },
    ]
}

fn placed() -> Vec<SetupAction> {
    vec![
        SetupAction::SetMargin { top: 9, right: 0, bottom: 0, left: 7 },
        SetupAction::SetSize { width: 300, height: 20 },
        SetupAction::Commit,
        SetupAction::CreatePool { bytes: 24_000 },
    ]
}

#[test]
fn window_is_created() {
    let config = config(7, 9, " hi ");
    let outcome = run(&config, good(6));
    let opened = vec![
        SetupAction::OpenChannel,
        SetupAction::TrackGlobals,
        SetupAction::Roundtrip,
    ];
    assert_eq!(outcome.actions, [bound(), layered(), placed(), opened].concat());
    assert!(matches!(outcome.result, Some(Ok(()))));
    assert_eq!(outcome.phase, SetupPhase::Ended);
    let state = outcome.state.unwrap();
    assert_eq!((state.width, state.height), (300, 20));
    assert!(state.first_configure);
    assert_eq!(state.window.font, "Sans");
    assert_eq!(LAYER_NAMESPACE, "runst");
}

#[test]
fn refusals_are_reported() {
    let config = config(7, 9, "hi");
    for (count, words, done) in [
        (0, "registry init error: no", 1),
        (1, "no", 2),
        (2, "no", 3),
        (3, "no", 4),
        (4, "no", 13),
        (5, "roundtrip error: no", 16),
    ] {
        let outcome = run(&config, good_then_refused(count));
        assert_eq!(outcome.actions.len(), done);
        assert_eq!(outcome.phase, SetupPhase::Ended);
        assert!(
            matches!(outcome.result, Some(Err(BackendError::Wayland(text))) if text == words)
        );
    }
}

#[test]
fn misplaced_window_is_refused() {
    for (x, y) in [(0x8000_0000, 0), (0, 0x8000_0000), (u32::MAX, u32::MAX)] {
        let config = config(x, y, "hi");
        let outcome = run(&config, good(6));
        assert_eq!(outcome.actions, [bound(), layered()].concat());
        assert!(matches!(
            outcome.result,
            Some(Err(BackendError::IntegerConversion))
        ));
        assert!(outcome.state.is_none());
    }
}

#[test]
fn outermost_place_fits() {
    let config = config(0x7fff_ffff, 0x7fff_ffff, "hi");
    let outcome = run(&config, good(4));
    assert!(outcome.actions.contains(&SetupAction::SetMargin {
        top: i32::MAX,
        right: 0,
        bottom: 0,
        left: i32::MAX
    }));
    assert_eq!(config.geometry.place().unwrap(), (i32::MAX, i32::MAX));
}

#[test]
fn bad_template_is_refused_after_the_pool() {
    let config = config(7, 9, "{{ oops");
    let outcome = run(&config, good(6));
    let opened = vec![SetupAction::OpenChannel, SetupAction::TrackGlobals];
    assert_eq!(outcome.actions, [bound(), layered(), placed(), opened].concat());
    assert!(matches!(
        outcome.result,
        Some(Err(BackendError::TemplateParse(_)))
    ));
    assert!(outcome.state.is_none());
}

#[test]
fn template_answer_decides() {
    let config = config(7, 9, "unused");
    let mut setup = WindowSetup { config: &config, phase: SetupPhase::Pool };
    let window = WindowRenderState::new("other", "Serif").unwrap_or_else(|e| panic!("{e:?}"));
    let turn: SetupTurn<Desk> = setup.template_answer(Ok(window));
    assert_eq!(turn.actions.last(), Some(&SetupAction::Roundtrip));
    assert_eq!(turn.state.unwrap().window.font, "Serif");
    assert_eq!(setup.phase, SetupPhase::Roundtrip);

    let mut setup = WindowSetup { config: &config, phase: SetupPhase::Pool };
    let refused = BackendError::TemplateParse("why".to_string());
    let turn: SetupTurn<Desk> = setup.template_answer(Err(refused));
    assert!(
        matches!(turn.result, Some(Err(BackendError::TemplateParse(text))) if text == "why")
    );
    assert_eq!(setup.phase, SetupPhase::Ended);
}

#[test]
fn images_that_fit() {
    let geometry = |width, height| Geometry { x: 0, y: 0, width, height };
    assert!(geometry(0, u32::MAX).image_fits());
    assert!(geometry(0x3fff_ffff, 1).image_fits());
    assert!(!geometry(0x4000_0000, 1).image_fits());
    assert!(geometry(32768, 32767).image_fits());
    assert!(!geometry(32768, 32768).image_fits());
    assert!(!geometry(u32::MAX, u32::MAX).image_fits());
}
