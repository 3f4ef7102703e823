//! Creating the notification window.
//!
//! As in a drawing, the backend names a few actions, the surrounding program
//! carries them out in order and answers the last one, and the answer decides
//! what comes next.

use vstd::prelude::*;

use crate::config::{Geometry, GlobalConfig};
use crate::error::{wayland_error, BackendError, BackendErrorView};
use crate::host::Host;
use crate::scan::list_in_test;
use crate::state::WaylandState;
use crate::template::{
    clone_engine, tera_filters, tera_templates, trimmed, WindowRenderState,
};

verus! {

/// The name that the layer surface bears.
pub const LAYER_NAMESPACE: &'static str = "runst";

/// Words before the compositor's, where it refuses the registry.
pub const REGISTRY_ERROR: &'static str = "registry init error: ";

/// Words before the compositor's, where it does not complete the round trip.
pub const ROUNDTRIP_ERROR: &'static str = "roundtrip error: ";

/// A layer of the desktop.
#[derive(Clone, Copy, Debug, PartialEq, Eq, Structural)]
pub enum Layer {
    Background,
    Bottom,
    Top,
    Overlay,
}

/// Whether a surface takes the keyboard.
#[derive(Clone, Copy, Debug, PartialEq, Eq, Structural)]
pub enum KeyboardInteractivity {
    Never,
    Exclusive,
    OnDemand,
}

/// Edges of an output.
#[derive(Clone, Copy, Debug, PartialEq, Eq, Structural)]
pub struct Edges {
    pub top: bool,
    pub bottom: bool,
    pub left: bool,
    pub right: bool,
}

/// What creating the window asks of the surrounding program.
#[derive(Clone, Copy, Debug, PartialEq, Eq, Structural)]
pub enum SetupAction {
    /// Read the compositor's registry and open an event queue.  Answered.
    InitRegistry,
    /// Bind the compositor.  Answered.
    BindCompositor,
    /// Bind the layer shell.  Answered.
    BindLayerShell,
    /// Bind the shared memory.  Answered.
    BindShm,
    /// Create a surface.
    CreateSurface,
    /// Make it a surface of the layer, named [`LAYER_NAMESPACE`], on an output
    /// that the compositor picks.
    CreateLayerSurface { layer: Layer },
    /// Anchor the surface to edges of the output.
    SetAnchor { edges: Edges },
    SetKeyboardInteractivity { interactivity: KeyboardInteractivity },
    SetExclusiveZone { zone: i32 },
    SetMargin { top: i32, right: i32, bottom: i32, left: i32 },
    SetSize { width: u32, height: u32 },
    /// Commit the layer surface.
    Commit,
    /// Create a pool of shared memory.  Answered.
    CreatePool { bytes: usize },
    /// Open the window's event channel.
    OpenChannel,
    /// Keep track of the compositor's globals, seats and outputs.
    TrackGlobals,
    /// Handle events until the compositor has seen every request.  Answered.
    Roundtrip,
}

/// Which action waits for its answer.
#[derive(Clone, Copy, Debug, PartialEq, Eq, Structural)]
pub enum SetupPhase {
    Registry,
    Compositor,
    LayerShell,
    Shm,
    Pool,
    Roundtrip,
    /// The window was created, or will not be.
    Ended,
}

/// A window that is being created.
pub struct WindowSetup<'a> {
    pub config: &'a GlobalConfig,
    pub phase: SetupPhase,
}

/// What is to be done now, in order; the window's state, once there is one,
/// for the events that come in while the last action is carried out; and, once
/// it is decided, whether the window was created.
pub struct SetupTurn<H: Host> {
    pub actions: Vec<SetupAction>,
    pub state: Option<WaylandState<H>>,
    pub result: Option<Result<(), BackendError>>,
}

/// The model of a turn.
pub struct SetupStep {
    pub phase: SetupPhase,
    pub actions: Seq<SetupAction>,
    pub result: Option<Result<(), BackendErrorView>>,
}

impl Geometry {
    /// Whether the compositor's integers can hold the place of the window.
    pub open spec fn place_fits(self) -> bool {
        self.x <= i32::MAX && self.y <= i32::MAX
    }

    /// Bytes of an image that fills the window.
    pub open spec fn image_bytes(self) -> int {
        self.width * self.height * 4
    }

    /// The place of the window as the compositor's integers.
    pub fn place(&self) -> (place: Result<(i32, i32), BackendError>)
        ensures
            match place {
                Ok((x, y)) => self.place_fits() && x == self.x && y == self.y,
                Err(error) => !self.place_fits() && error@ == BackendErrorView::IntegerConversion,
            },
            place is Ok <==> self.x <= 0x7fff_ffff && self.y <= 0x7fff_ffff,
    {
        if self.y > 0x7fff_ffff || self.x > 0x7fff_ffff {
            Err(BackendError::IntegerConversion)
        } else {
            Ok((self.x as i32, self.y as i32))
        }
    }

    /// Whether 32 bits can count the bytes of an image that fills the window.
    pub fn image_fits(&self) -> (fits: bool)
        ensures
            fits == (self.image_bytes() <= u32::MAX),
            fits <==> self.width * self.height * 4 <= 0xffff_ffff,
    {
        assert(self.width * self.height <= 0xffff_ffff * 0xffff_ffff) by (nonlinear_arith)
            requires
                0 <= self.width <= 0xffff_ffff,
                0 <= self.height <= 0xffff_ffff,
        ;
        (self.width as u64) * (self.height as u64) <= 0x3fff_ffff
    }
}

/// What makes a surface the notification window, up to its place.
pub open spec fn layer_script() -> Seq<SetupAction> {
    seq![
        SetupAction::CreateSurface,
        SetupAction::CreateLayerSurface { layer: Layer::Overlay },
        SetupAction::SetAnchor {
            edges: Edges { top: true, bottom: false, left: true, right: false },
        },
        SetupAction::SetKeyboardInteractivity { interactivity: KeyboardInteractivity::Never },
        SetupAction::SetExclusiveZone { zone: (-1) as i32 },
    ]
}

/// What puts the window in its place, up to the memory of its image.
pub open spec fn place_script(geometry: Geometry) -> Seq<SetupAction> {
    seq![
        SetupAction::SetMargin {
            top: geometry.y as i32,
            right: 0,
            bottom: 0,
            left: geometry.x as i32,
        },
        SetupAction::SetSize { width: geometry.width, height: geometry.height },
        SetupAction::Commit,
        SetupAction::CreatePool { bytes: geometry.image_bytes() as usize },
    ]
}

/// One more action, answered, leads to the phase.
pub open spec fn ask(phase: SetupPhase, action: SetupAction) -> SetupStep {
    SetupStep { phase, actions: seq![action], result: None }
}

/// After these actions, the window will not be created, for this reason.
pub open spec fn refuse(actions: Seq<SetupAction>, error: BackendErrorView) -> SetupStep {
    SetupStep { phase: SetupPhase::Ended, actions, result: Some(Err(error)) }
}

/// The words before the compositor's own, where it refuses in a phase.
pub open spec fn refusal_context(phase: SetupPhase) -> Seq<char> {
    match phase {
        SetupPhase::Registry => REGISTRY_ERROR@,
        SetupPhase::Roundtrip => ROUNDTRIP_ERROR@,
        _ => seq![],
    }
}

/// What follows once the pool was created, given how the message template
/// fared.
pub open spec fn template_step(loaded: Result<(), BackendErrorView>) -> SetupStep {
    let opened = seq![SetupAction::OpenChannel, SetupAction::TrackGlobals];
    match loaded {
        Ok(()) => SetupStep {
            phase: SetupPhase::Roundtrip,
            actions: opened.push(SetupAction::Roundtrip),
            result: None,
        },
        Err(error) => refuse(opened, error),
    }
}

/// What an answer leads to; `loaded` is how the message template fared, and
/// counts only once the pool was created.
pub open spec fn setup_step(
    geometry: Geometry,
    phase: SetupPhase,
    answer: Result<(), Seq<char>>,
    loaded: Result<(), BackendErrorView>,
) -> SetupStep {
    match answer {
        Ok(()) => match phase {
            SetupPhase::Registry => ask(SetupPhase::Compositor, SetupAction::BindCompositor),
            SetupPhase::Compositor => ask(SetupPhase::LayerShell, SetupAction::BindLayerShell),
            SetupPhase::LayerShell => ask(SetupPhase::Shm, SetupAction::BindShm),
            SetupPhase::Shm => if geometry.place_fits() {
                SetupStep {
                    phase: SetupPhase::Pool,
                    actions: layer_script() + place_script(geometry),
                    result: None,
                }
            } else {
                refuse(layer_script(), BackendErrorView::IntegerConversion)
            },
            SetupPhase::Pool => template_step(loaded),
            SetupPhase::Roundtrip => SetupStep {
                phase: SetupPhase::Ended,
                actions: seq![],
                result: Some(Ok(())),
            },
            SetupPhase::Ended => SetupStep { phase, actions: seq![], result: None },
        },
        Err(text) => if phase == SetupPhase::Ended {
            SetupStep { phase, actions: seq![], result: None }
        } else {
            refuse(seq![], BackendErrorView::Wayland(refusal_context(phase) + text))
        },
    }
}

/// An answer with its text taken as a sequence of characters.
pub open spec fn answer_view(answer: Result<(), String>) -> Result<(), Seq<char>> {
    match answer {
        Ok(()) => Ok(()),
        Err(text) => Err(text@),
    }
}

impl<H: Host> SetupTurn<H> {
    /// The turn is the one that the model asks for.
    pub open spec fn follows(self, step: SetupStep) -> bool {
        &&& self.actions@ =~= step.actions
        &&& match (self.result, step.result) {
            (None, None) => true,
            (Some(Ok(())), Some(Ok(()))) => true,
            (Some(Err(error)), Some(Err(model))) => error@ == model,
            _ => false,
        }
    }

    /// Goes on with these actions.
    fn go_on(actions: Vec<SetupAction>) -> (turn: Self)
        ensures
            turn.actions == actions,
            turn.state is None,
            turn.result is None,
    {
        SetupTurn { actions, state: None, result: None }
    }

    /// Ends with an error, after these actions.
    fn refuse(actions: Vec<SetupAction>, error: BackendError) -> (turn: Self)
        ensures
            turn.actions == actions,
            turn.state is None,
            turn.result == Some(Err::<(), BackendError>(error)),
    {
        SetupTurn { actions, state: None, result: Some(Err(error)) }
    }
}

/// The state of a window that was just created from a configuration.
pub open spec fn is_fresh<H: Host>(state: WaylandState<H>, geometry: Geometry) -> bool {
    &&& state.wf()
    &&& state.first_configure
    &&& !state.configured
    &&& state.size() == (geometry.width, geometry.height)
    &&& state.pointer is None
    &&& state.pending_draw is None
    &&& state.on_press is None
    &&& state.manager is None
    &&& state.config is None
}

impl<'a> WindowSetup<'a> {
    /// Starts to create a window.
    pub fn start<H: Host>(config: &'a GlobalConfig) -> (started: (Self, SetupTurn<H>))
        ensures
            started.0.config == config,
            started.0.phase == SetupPhase::Registry,
            started.1.actions@ == seq![SetupAction::InitRegistry],
            started.1.state is None,
            started.1.result is None,
    {
        let setup: WindowSetup<'a> = WindowSetup { config, phase: SetupPhase::Registry };
        (setup, SetupTurn::go_on(vec![SetupAction::InitRegistry]))
    }

    /// Goes on once the pool was created, given how the message template
    /// fared.
    pub fn template_answer<H: Host>(
        &mut self,
        loaded: Result<WindowRenderState, BackendError>,
    ) -> (turn: SetupTurn<H>)
        ensures
            final(self).config == old(self).config,
            match loaded {
                Ok(window) => {
                    &&& final(self).phase == template_step(Ok(())).phase
                    &&& turn.follows(template_step(Ok(())))
                    &&& turn.state matches Some(state) && is_fresh(
                        state,
                        old(self).config.geometry,
                    ) && state.window == window
                },
                Err(error) => {
                    &&& final(self).phase == template_step(Err(error@)).phase
                    &&& turn.follows(template_step(Err(error@)))
                    &&& turn.state is None
                },
            },
    {
        let mut actions: Vec<SetupAction> = vec![
            SetupAction::OpenChannel,
            SetupAction::TrackGlobals,
        ];
        match loaded {
            Ok(window) => {
                self.phase = SetupPhase::Roundtrip;
                actions.push(SetupAction::Roundtrip);
                SetupTurn {
                    actions,
                    state: Some(WaylandState::new(self.config.geometry, window)),
                    result: None,
                }
            },
            Err(error) => {
                self.phase = SetupPhase::Ended;
                SetupTurn::refuse(actions, error)
            },
        }
    }

    /// Goes on, given the answer to the last action of the turn before.  The
    /// bytes of the window's image have to be countable in 32 bits once they
    /// are asked for.  After the pool, Tera decides whether it accepts the
    /// message template, which must hand no list to a test; what follows from
    /// that is [`WindowSetup::template_answer`].
    pub fn resume<H: Host>(&mut self, answer: Result<(), String>) -> (turn: SetupTurn<H>)
        requires
            old(self).phase == SetupPhase::Shm && answer is Ok
                && old(self).config.geometry.place_fits()
                ==> old(self).config.geometry.image_bytes() <= u32::MAX,
            old(self).phase == SetupPhase::Pool && answer is Ok ==> !list_in_test(
                trimmed(old(self).config.template@),
            ),
        ensures
            final(self).config == old(self).config,
            !(old(self).phase == SetupPhase::Pool && answer is Ok) ==> {
                let step = setup_step(
                    old(self).config.geometry,
                    old(self).phase,
                    answer_view(answer),
                    Ok(()),
                );
                &&& final(self).phase == step.phase
                &&& turn.follows(step)
                &&& turn.state is None
            },
            old(self).phase == SetupPhase::Shm && answer is Ok ==> ({
                let geometry = old(self).config.geometry;
                if geometry.x <= 0x7fff_ffff && geometry.y <= 0x7fff_ffff {
                    &&& turn.result is None
                    &&& turn.actions@.len() == 9
                    &&& turn.actions@[5] matches SetupAction::SetMargin {
                        top,
                        right,
                        bottom,
                        left,
                    } && top == geometry.y && right == 0 && bottom == 0 && left == geometry.x
                    &&& turn.actions@[6] matches SetupAction::SetSize { width, height } && width
                        == geometry.width && height == geometry.height
                    &&& turn.actions@[7] is Commit
                    &&& turn.actions@[8] matches SetupAction::CreatePool { bytes } && bytes
                        == geometry.width * geometry.height * 4
                } else {
                    &&& turn.result matches Some(Err(BackendError::IntegerConversion))
                    &&& turn.actions@.len() == 5
                }
            }),
            old(self).phase == SetupPhase::Pool && answer is Ok ==> match turn.state {
                Some(state) => {
                    &&& final(self).phase == template_step(Ok(())).phase
                    &&& turn.follows(template_step(Ok(())))
                    &&& is_fresh(state, old(self).config.geometry)
                    &&& state.window.renders(
                        old(self).config.template@,
                        old(self).config.font@,
                    )
                },
                None => match turn.result {
                    Some(Err(error)) => {
                        &&& WindowRenderState::reports(error@, old(self).config.template@)
                        &&& final(self).phase == template_step(Err(error@)).phase
                        &&& turn.follows(template_step(Err(error@)))
                    },
                    _ => false,
                },
            },
    {
        match answer {
            Err(text) => {
                proof {
                    reveal_strlit("");
                }
                let context: &str = match self.phase {
                    SetupPhase::Registry => REGISTRY_ERROR,
                    SetupPhase::Roundtrip => ROUNDTRIP_ERROR,
                    _ => "",
                };
                if self.phase == SetupPhase::Ended {
                    SetupTurn::go_on(Vec::new())
                } else {
                    assert(context@ == refusal_context(self.phase));
                    self.phase = SetupPhase::Ended;
                    SetupTurn::refuse(Vec::new(), wayland_error(context, text.as_str()))
                }
            },
            Ok(()) => match self.phase {
                SetupPhase::Registry => {
                    self.phase = SetupPhase::Compositor;
                    SetupTurn::go_on(vec![SetupAction::BindCompositor])
                },
                SetupPhase::Compositor => {
                    self.phase = SetupPhase::LayerShell;
                    SetupTurn::go_on(vec![SetupAction::BindLayerShell])
                },
                SetupPhase::LayerShell => {
                    self.phase = SetupPhase::Shm;
                    SetupTurn::go_on(vec![SetupAction::BindShm])
                },
                SetupPhase::Shm => self.place_window(),
                SetupPhase::Pool => {
                    let loaded: Result<WindowRenderState, BackendError> = WindowRenderState::new(
                        self.config.template.as_str(),
                        self.config.font.as_str(),
                    );
                    self.template_answer(loaded)
                },
                SetupPhase::Roundtrip => {
                    self.phase = SetupPhase::Ended;
                    SetupTurn { actions: Vec::new(), state: None, result: Some(Ok(())) }
                },
                SetupPhase::Ended => SetupTurn::go_on(Vec::new()),
            },
        }
    }

    /// Creates the layer surface and puts it in its place.
    fn place_window<H: Host>(&mut self) -> (turn: SetupTurn<H>)
        requires
            old(self).phase == SetupPhase::Shm,
            old(self).config.geometry.place_fits() ==> old(self).config.geometry.image_bytes()
                <= u32::MAX,
        ensures
            final(self).config == old(self).config,
            ({
                let step = setup_step(
                    old(self).config.geometry,
                    SetupPhase::Shm,
                    Ok(()),
                    Ok(()),
                );
                &&& final(self).phase == step.phase
                &&& turn.follows(step)
                &&& turn.state is None
            }),
            ({
                let geometry = old(self).config.geometry;
                if geometry.x <= 0x7fff_ffff && geometry.y <= 0x7fff_ffff {
                    &&& turn.result is None
                    &&& turn.actions@.len() == 9
                    &&& turn.actions@[5] matches SetupAction::SetMargin {
                        top,
                        right,
                        bottom,
                        left,
                    } && top == geometry.y && right == 0 && bottom == 0 && left == geometry.x
                    &&& turn.actions@[6] matches SetupAction::SetSize { width, height } && width
                        == geometry.width && height == geometry.height
                    &&& turn.actions@[7] is Commit
                    &&& turn.actions@[8] matches SetupAction::CreatePool { bytes } && bytes
                        == geometry.width * geometry.height * 4
                } else {
                    &&& turn.result matches Some(Err(BackendError::IntegerConversion))
                    &&& turn.actions@.len() == 5
                }
            }),
    {
        let geometry: Geometry = self.config.geometry;
        let mut actions: Vec<SetupAction> = vec![
            SetupAction::CreateSurface,
            SetupAction::CreateLayerSurface { layer: Layer::Overlay },
            SetupAction::SetAnchor {
                edges: Edges { top: true, bottom: false, left: true, right: false },
            },
            SetupAction::SetKeyboardInteractivity { interactivity: KeyboardInteractivity::Never },
            SetupAction::SetExclusiveZone { zone: -1 },
        ];
        match geometry.place() {
            Err(error) => {
                self.phase = SetupPhase::Ended;
                SetupTurn::refuse(actions, error)
            },
            Ok((x, y)) => {
                assert(0 <= geometry.width * geometry.height) by (nonlinear_arith);
                let bytes: usize = (geometry.width * geometry.height * 4) as usize;
                self.phase = SetupPhase::Pool;
                actions.push(SetupAction::SetMargin { top: y, right: 0, bottom: 0, left: x });
                actions.push(
                    SetupAction::SetSize { width: geometry.width, height: geometry.height },
                );
                actions.push(SetupAction::Commit);
                actions.push(SetupAction::CreatePool { bytes });
                SetupTurn::go_on(actions)
            },
        }
    }
}

impl<H: Host> WaylandState<H> {
    /// A copy of the window's template engine, to be shared with those who
    /// render messages outside the event loop.
    pub fn shared_template(&self) -> (template: std::sync::Arc<tera::Tera>)
        ensures
            tera_templates(*template) == tera_templates(self.window.template),
            tera_filters(*template) == tera_filters(self.window.template),
    {
        std::sync::Arc::new(clone_engine(&self.window.template))
    }
}

} // verus!
