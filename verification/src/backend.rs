//! The backend's interface and its windows.

use std::sync::Arc;
use vstd::prelude::*;

use crate::config::{Config, GlobalConfig};
use crate::error::{init_error, wayland_error, BackendError, BackendErrorView};
use crate::host::Host;
use crate::setup::{SetupAction, SetupPhase, SetupTurn, WindowSetup};
use crate::state::{WaylandEvent, WaylandState};
use crate::template::{tera_filters, tera_templates};

verus! {

/// Words for a window of another backend.
pub const INVALID_WINDOW: &'static str = "invalid backend window";

/// Words before the reason why there is no connection.
pub const CONNECTION_ERROR: &'static str = "connection error: ";

/// Words before the reason why an event was not sent.
pub const SEND_ERROR: &'static str = "send error: ";

/// Rendering and event backend interface.
pub trait Backend<H: Host>: Send + Sync {
    /// Create a backend window.
    fn create_window(&mut self, config: &GlobalConfig) -> Result<BackendWindow<H>, BackendError>;

    /// Show the backend window.
    fn show_window(&self, window: &BackendWindow<H>) -> Result<(), BackendError>;

    /// Hide the backend window.
    fn hide_window(&self, window: &BackendWindow<H>) -> Result<(), BackendError>;

    /// Run the backend event loop.
    fn handle_events(
        &self,
        window: Arc<BackendWindow<H>>,
        manager: H::Manager,
        config: Arc<Config<H>>,
        on_press: H::OnPress,
    ) -> Result<(), BackendError>;

    /// Render a notification message for read-time estimation.
    fn render_message(
        &self,
        window: &BackendWindow<H>,
        notification: &H::Notification,
        urgency_text: Option<String>,
        unread_count: usize,
    ) -> Result<String, BackendError>;
}

/// Backend window variants.
pub enum BackendWindow<H: Host> {
    /// X11 window wrapper.
    X11(Arc<H::X11Window>),
    /// Wayland window wrapper.
    Wayland(Arc<WaylandWindow<H>>),
}

/// Wayland window wrapper.
pub struct WaylandWindow<H: Host> {
    pub event_sender: H::EventSender,
    pub template: Arc<tera::Tera>,
    pub runtime: H::Runtime,
}

/// An event and the channel that it is to be sent on.
pub struct Delivery<'a, H: Host> {
    pub event_sender: &'a H::EventSender,
    pub event: WaylandEvent,
}

/// A message that is to be rendered.
pub struct MessageJob<'a, H: Host> {
    pub template: &'a tera::Tera,
    pub notification: &'a H::Notification,
    pub urgency_text: Option<String>,
    pub unread_count: usize,
}

/// Wayland backend.
pub struct Wayland<H: Host> {
    pub connection: H::Connection,
}

impl<'a, H: Host> MessageJob<'a, H> {
    /// The job is to render this notification, with these particulars.
    pub open spec fn asks(
        self,
        template: tera::Tera,
        notification: H::Notification,
        urgency_text: Option<String>,
        unread_count: usize,
    ) -> bool {
        &&& *self.template == template
        &&& *self.notification == notification
        &&& self.urgency_text == urgency_text
        &&& self.unread_count == unread_count
    }
}

impl<H: Host> BackendWindow<H> {
    /// A Wayland window as a window of this backend.
    pub fn from_wayland(window: WaylandWindow<H>) -> (wrapped: Self)
        ensures
            wrapped matches BackendWindow::Wayland(own) && *own == window,
    {
        BackendWindow::Wayland(Arc::new(window))
    }

    /// The Wayland window; a window of another backend is refused.
    pub fn wayland(&self) -> (window: Result<&Arc<WaylandWindow<H>>, BackendError>)
        ensures
            match (*self, window) {
                (BackendWindow::Wayland(own), Ok(found)) => *found == own,
                (BackendWindow::X11(_), Err(error)) => error@ == BackendErrorView::Init(
                    INVALID_WINDOW@,
                ),
                _ => false,
            },
    {
        match self {
            BackendWindow::Wayland(window) => Ok(window),
            BackendWindow::X11(_) => Err(init_error(INVALID_WINDOW)),
        }
    }
}

impl<H: Host> WaylandWindow<H> {
    /// The window holds its own sender and runtime, and renders messages as the
    /// state does.
    pub open spec fn made_of(
        self,
        event_sender: H::EventSender,
        state: WaylandState<H>,
        runtime: H::Runtime,
    ) -> bool {
        &&& self.event_sender == event_sender
        &&& tera_templates(*self.template) == tera_templates(state.window.template)
        &&& tera_filters(*self.template) == tera_filters(state.window.template)
        &&& self.runtime == runtime
    }

    /// The delivery brings the event to this window.
    pub open spec fn delivers(self, event: WaylandEvent, delivery: Delivery<'_, H>) -> bool {
        *delivery.event_sender == self.event_sender && delivery.event == event
    }

    /// The window of a state that was set up: it gets a template engine of its
    /// own.
    pub fn new(
        event_sender: H::EventSender,
        state: &WaylandState<H>,
        runtime: H::Runtime,
    ) -> (window: Self)
        ensures
            window.made_of(event_sender, *state, runtime),
            window.event_sender == event_sender,
            window.runtime == runtime,
            tera_templates(*window.template) == tera_templates(state.window.template),
            tera_filters(*window.template) == tera_filters(state.window.template),
    {
        WaylandWindow { event_sender, template: state.shared_template(), runtime }
    }

    /// What shows the window.
    pub fn show_delivery(&self) -> (delivery: Delivery<'_, H>)
        ensures
            self.delivers(WaylandEvent::Show, delivery),
            *delivery.event_sender == self.event_sender,
            delivery.event == WaylandEvent::Show,
    {
        Delivery { event_sender: &self.event_sender, event: WaylandEvent::Show }
    }

    /// What hides the window.
    pub fn hide_delivery(&self) -> (delivery: Delivery<'_, H>)
        ensures
            self.delivers(WaylandEvent::Hide, delivery),
            *delivery.event_sender == self.event_sender,
            delivery.event == WaylandEvent::Hide,
    {
        Delivery { event_sender: &self.event_sender, event: WaylandEvent::Hide }
    }
}

/// How a delivery went, given the channel's answer.
pub fn delivered(answer: Result<(), String>) -> (outcome: Result<(), BackendError>)
    ensures
        match (answer, outcome) {
            (Ok(()), Ok(())) => true,
            (Err(text), Err(error)) => error@ == BackendErrorView::Wayland(SEND_ERROR@ + text@),
            _ => false,
        },
{
    match answer {
        Ok(()) => Ok(()),
        Err(text) => Err(wayland_error(SEND_ERROR, text.as_str())),
    }
}

impl<H: Host> Wayland<H> {
    /// The backend on a connection, given how connecting went.
    pub fn init(answer: Result<H::Connection, String>) -> (outcome: Result<Self, BackendError>)
        ensures
            match (answer, outcome) {
                (Ok(connection), Ok(backend)) => backend.connection == connection,
                (Err(text), Err(error)) => error@ == BackendErrorView::Wayland(
                    CONNECTION_ERROR@ + text@,
                ),
                _ => false,
            },
    {
        match answer {
            Ok(connection) => Ok(Wayland { connection }),
            Err(text) => Err(wayland_error(CONNECTION_ERROR, text.as_str())),
        }
    }

    /// A window is started to be created: the registry comes first, and the
    /// backend stays as it is.
    pub open spec fn starts_window<'a>(
        self,
        after: Self,
        config: &'a GlobalConfig,
        started: (WindowSetup<'a>, SetupTurn<H>),
    ) -> bool {
        &&& after == self
        &&& started.0.config == config
        &&& started.0.phase == SetupPhase::Registry
        &&& started.1.actions@ =~= seq![SetupAction::InitRegistry]
        &&& started.1.state is None
        &&& started.1.result is None
    }

    /// Starts to create a window; see [`WindowSetup::resume`].
    pub fn create_window<'a>(&mut self, config: &'a GlobalConfig) -> (started: (
        WindowSetup<'a>,
        SetupTurn<H>,
    ))
        ensures
            old(self).starts_window(*final(self), config, started),
            *final(self) == *old(self),
            started.0.config == config,
            started.0.phase == SetupPhase::Registry,
            started.1.actions@ == seq![SetupAction::InitRegistry],
            started.1.state is None,
            started.1.result is None,
    {
        WindowSetup::start(config)
    }

    /// What shows a window of this backend.
    pub fn show_window<'a>(&self, window: &'a BackendWindow<H>) -> (delivery: Result<
        Delivery<'a, H>,
        BackendError,
    >)
        ensures
            match (*window, delivery) {
                (BackendWindow::Wayland(own), Ok(found)) => own.delivers(
                    WaylandEvent::Show,
                    found,
                ),
                (BackendWindow::X11(_), Err(error)) => error@ == BackendErrorView::Init(
                    INVALID_WINDOW@,
                ),
                _ => false,
            },
    {
        match window.wayland() {
            Ok(own) => Ok(own.show_delivery()),
            Err(error) => Err(error),
        }
    }

    /// What hides a window of this backend.
    pub fn hide_window<'a>(&self, window: &'a BackendWindow<H>) -> (delivery: Result<
        Delivery<'a, H>,
        BackendError,
    >)
        ensures
            match (*window, delivery) {
                (BackendWindow::Wayland(own), Ok(found)) => own.delivers(
                    WaylandEvent::Hide,
                    found,
                ),
                (BackendWindow::X11(_), Err(error)) => error@ == BackendErrorView::Init(
                    INVALID_WINDOW@,
                ),
                _ => false,
            },
    {
        match window.wayland() {
            Ok(own) => Ok(own.hide_delivery()),
            Err(error) => Err(error),
        }
    }

    /// The window whose event loop is to be run.
    pub fn handle_events<'a>(&self, window: &'a BackendWindow<H>) -> (own: Result<
        &'a Arc<WaylandWindow<H>>,
        BackendError,
    >)
        ensures
            match (*window, own) {
                (BackendWindow::Wayland(expected), Ok(found)) => *found == expected,
                (BackendWindow::X11(_), Err(error)) => error@ == BackendErrorView::Init(
                    INVALID_WINDOW@,
                ),
                _ => false,
            },
    {
        window.wayland()
    }

    /// The message to render: what was asked for, with the window's template.
    pub fn render_message<'a>(
        &self,
        window: &'a BackendWindow<H>,
        notification: &'a H::Notification,
        urgency_text: Option<String>,
        unread_count: usize,
    ) -> (job: Result<MessageJob<'a, H>, BackendError>)
        ensures
            match (*window, job) {
                (BackendWindow::Wayland(own), Ok(found)) => found.asks(
                    *own.template,
                    *notification,
                    urgency_text,
                    unread_count,
                ),
                (BackendWindow::X11(_), Err(error)) => error@ == BackendErrorView::Init(
                    INVALID_WINDOW@,
                ),
                _ => false,
            },
    {
        match window.wayland() {
            Ok(own) => Ok(
                MessageJob { template: &own.template, notification, urgency_text, unread_count },
            ),
            Err(error) => Err(error),
        }
    }
}

} // verus!
