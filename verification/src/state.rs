//! The state of the notification window and its answers to events.

use std::sync::Arc;
use vstd::prelude::*;

use crate::config::{Config, Geometry};
use crate::draw::{DrawTurn, Drawing};
use crate::error::BackendError;
use crate::host::Host;
use crate::template::WindowRenderState;

verus! {

/// A request of the daemon to the window.
#[derive(Clone, Copy, Debug, PartialEq, Eq, Structural)]
pub enum WaylandEvent {
    Show,
    Hide,
}

/// What arrives on the window's event channel.
#[derive(Clone, Copy, Debug, PartialEq, Eq, Structural)]
pub enum ChannelEvent {
    Msg(WaylandEvent),
    Closed,
}

/// What the window asks of the compositor or of the notification store.
#[derive(Clone, Copy, Debug, PartialEq, Eq, Structural)]
pub enum WindowAction {
    /// Set the size of the layer surface.
    SetSize { width: u32, height: u32 },
    /// Commit the layer surface.
    Commit,
    /// Read the last unread notification, then the number of unread ones, and
    /// hand both to [`WaylandState::queue_draw`].
    QueryUnread,
    /// Commit the Wayland surface below the layer.
    CommitSurface,
}

/// What a seat can do.
#[derive(Clone, Copy, Debug, PartialEq, Eq, Structural)]
pub enum Capability {
    Keyboard,
    Pointer,
    Touch,
    Other,
}

/// What a pointer did.
#[derive(Clone, Copy, Debug, PartialEq, Eq, Structural)]
pub enum PointerEventKind {
    Enter,
    Leave,
    Motion,
    Press,
    Release,
    Axis,
}

/// A pointer event and the number of the surface that it happened on.  In one
/// run of events, a surface has its number to itself.
#[derive(Clone, Copy, Debug, PartialEq, Eq, Structural)]
pub struct PointerEvent {
    pub surface: u32,
    pub kind: PointerEventKind,
}

/// What a press asks of the notification store and of the press handler.
#[derive(Clone, Copy, Debug, PartialEq, Eq, Structural)]
pub enum PressAction {
    /// Read the last unread notification.
    GetLastUnread,
    /// Mark the last unread notification as read.
    MarkLastAsRead,
    /// Call the press handler with the notification that was read.
    OnPress,
}

/// A notification that waits to be drawn.
pub struct DrawRequest<H: Host> {
    pub notification: H::Notification,
    pub unread_count: usize,
}

/// The state of the notification window.
pub struct WaylandState<H: Host> {
    /// No configure event was handled yet.
    pub first_configure: bool,
    /// The compositor has configured the window.
    pub configured: bool,
    pub width: u32,
    pub height: u32,
    pub pointer: Option<H::Pointer>,
    pub pending_draw: Option<DrawRequest<H>>,
    pub window: WindowRenderState,
    pub on_press: Option<H::OnPress>,
    pub manager: Option<H::Manager>,
    pub config: Option<Arc<Config<H>>>,
}

/// What a press on the window sets off, in order.
pub open spec fn press_script() -> Seq<PressAction> {
    seq![PressAction::GetLastUnread, PressAction::MarkLastAsRead, PressAction::OnPress]
}

/// What a run of pointer events sets off: the script of a press, once for each
/// press on the surface.
pub open spec fn press_actions(events: Seq<PointerEvent>, surface: u32) -> Seq<PressAction>
    decreases events.len(),
{
    if events.len() == 0 {
        seq![]
    } else {
        let before = press_actions(events.drop_last(), surface);
        let last = events.last();
        if last.surface == surface && last.kind == PointerEventKind::Press {
            before + press_script()
        } else {
            before
        }
    }
}

impl<H: Host> WaylandState<H> {
    /// What holds of every window: it counts as configured from its first
    /// configure event on; the notification store, the press handler and the
    /// configuration come together; and a drawing waits only where it can be
    /// carried out.
    pub open spec fn wf(self) -> bool {
        &&& self.first_configure == !self.configured
        &&& self.manager is Some == self.config is Some
        &&& self.manager is Some == self.on_press is Some
        &&& self.pending_draw is Some ==> self.drawable()
    }

    /// Whether a drawing can be asked for.
    pub open spec fn drawable(self) -> bool {
        self.configured && self.manager is Some
    }

    /// The requests that follow an event.
    pub open spec fn event_actions(self, event: WaylandEvent) -> Seq<WindowAction> {
        match event {
            WaylandEvent::Show => {
                let size = WindowAction::SetSize { width: self.width, height: self.height };
                if self.drawable() {
                    seq![size, WindowAction::Commit, WindowAction::QueryUnread]
                } else {
                    seq![size, WindowAction::Commit]
                }
            },
            WaylandEvent::Hide => seq![
                WindowAction::SetSize { width: 1, height: 1 },
                WindowAction::Commit,
            ],
        }
    }

    /// The state with a drawing waiting, or with none.
    pub open spec fn with_pending(self, pending: Option<DrawRequest<H>>) -> Self {
        WaylandState { pending_draw: pending, ..self }
    }

    /// The state after a configure event, without regard to drawings.
    pub open spec fn configured_to(self, width: u32, height: u32) -> Self {
        WaylandState {
            width: if width > 0 { width } else { self.width },
            height: if height > 0 { height } else { self.height },
            configured: true,
            first_configure: false,
            ..self
        }
    }

    /// Whether the seat is asked for its pointer when it gains a capability.
    pub open spec fn asks_pointer(self, capability: Capability) -> bool {
        capability == Capability::Pointer && self.pointer is None
    }

    /// The state with a pointer, or with none.
    pub open spec fn with_pointer(self, pointer: Option<H::Pointer>) -> Self {
        WaylandState { pointer, ..self }
    }

    /// The state of a window that was just created.
    pub fn new(geometry: Geometry, window: WindowRenderState) -> (state: Self)
        ensures
            state.wf(),
            state.first_configure,
            !state.configured,
            state.width == geometry.width,
            state.height == geometry.height,
            state.pointer is None,
            state.pending_draw is None,
            state.window == window,
            state.on_press is None,
            state.manager is None,
            state.config is None,
    {
        WaylandState {
            first_configure: true,
            configured: false,
            width: geometry.width,
            height: geometry.height,
            pointer: None,
            pending_draw: None,
            window,
            on_press: None,
            manager: None,
            config: None,
        }
    }

    /// Hands the window what it needs to draw and to answer presses.
    pub fn attach(&mut self, manager: H::Manager, config: Arc<Config<H>>, on_press: H::OnPress)
        ensures
            *final(self) == (WaylandState {
                manager: Some(manager),
                config: Some(config),
                on_press: Some(on_press),
                ..*old(self)
            }),
            old(self).wf() ==> final(self).wf(),
    {
        self.manager = Some(manager);
        self.config = Some(config);
        self.on_press = Some(on_press);
    }

    /// Answers a request of the daemon.
    pub fn handle_event(&self, event: WaylandEvent) -> (actions: Vec<WindowAction>)
        ensures
            actions@ == self.event_actions(event),
            match event {
                WaylandEvent::Show => {
                    &&& actions@.len() == if self.configured && self.manager is Some {
                        3int
                    } else {
                        2int
                    }
                    &&& actions@[0] == WindowAction::SetSize {
                        width: self.width,
                        height: self.height,
                    }
                    &&& actions@[1] == WindowAction::Commit
                    &&& actions@.len() == 3 ==> actions@[2] == WindowAction::QueryUnread
                },
                WaylandEvent::Hide => {
                    &&& actions@.len() == 2
                    &&& actions@[0] == WindowAction::SetSize { width: 1, height: 1 }
                    &&& actions@[1] == WindowAction::Commit
                },
            },
    {
        let mut actions: Vec<WindowAction> = Vec::new();
        match event {
            WaylandEvent::Show => {
                actions.push(WindowAction::SetSize { width: self.width, height: self.height });
                actions.push(WindowAction::Commit);
                if self.configured && self.manager.is_some() {
                    actions.push(WindowAction::QueryUnread);
                }
            },
            WaylandEvent::Hide => {
                actions.push(WindowAction::SetSize { width: 1, height: 1 });
                actions.push(WindowAction::Commit);
            },
        }
        actions
    }

    /// The requests that follow what arrives on the event channel.
    pub open spec fn channel_actions(self, event: ChannelEvent) -> Seq<WindowAction> {
        match event {
            ChannelEvent::Msg(message) => self.event_actions(message),
            ChannelEvent::Closed => seq![],
        }
    }

    /// Answers what arrives on the event channel; that the channel was closed
    /// sets nothing off.
    pub fn handle_channel(&self, event: ChannelEvent) -> (actions: Vec<WindowAction>)
        ensures
            actions@ == self.channel_actions(event),
    {
        match event {
            ChannelEvent::Msg(message) => self.handle_event(message),
            ChannelEvent::Closed => Vec::new(),
        }
    }

    /// Takes the answer to [`WindowAction::QueryUnread`]: the notification
    /// waits to be drawn, in place of one that waited before.  A window that
    /// cannot draw takes none.
    pub fn queue_draw(
        &mut self,
        notification: H::Notification,
        unread_count: usize,
    ) -> (actions: Vec<WindowAction>)
        ensures
            old(self).drawable() ==> {
                &&& *final(self) == old(self).with_pending(
                    Some(DrawRequest { notification, unread_count }),
                )
                &&& actions@ == seq![WindowAction::CommitSurface]
            },
            !old(self).drawable() ==> {
                &&& *final(self) == *old(self)
                &&& actions@ == Seq::<WindowAction>::empty()
            },
            *final(self) == (WaylandState {
                pending_draw: if old(self).configured && old(self).manager is Some {
                    Some(DrawRequest { notification, unread_count })
                } else {
                    old(self).pending_draw
                },
                ..*old(self)
            }),
            old(self).wf() ==> final(self).wf(),
    {
        let mut actions: Vec<WindowAction> = Vec::new();
        if self.configured && self.manager.is_some() {
            self.pending_draw = Some(DrawRequest { notification, unread_count });
            actions.push(WindowAction::CommitSurface);
        }
        actions
    }

    /// The drawing that waits, if one does, is started.
    pub open spec fn starts_pending(
        self,
        outcome: Option<Result<(Drawing<H>, DrawTurn), BackendError>>,
    ) -> bool {
        match (self.pending_draw, outcome) {
            (Some(request), Some(started)) => self.starts_drawing(request, started),
            (None, None) => true,
            _ => false,
        }
    }

    /// The compositor is ready for the next frame: starts the drawing that
    /// waits.
    pub fn frame(&mut self) -> (outcome: Option<Result<(Drawing<H>, DrawTurn), BackendError>>)
        ensures
            old(self).starts_pending(outcome),
            *final(self) == old(self).with_pending(None),
            *final(self) == (WaylandState { pending_draw: None, ..*old(self) }),
            outcome is Some <==> old(self).pending_draw is Some,
            outcome matches Some(Ok((drawing, _))) ==> Some(drawing.request)
                == old(self).pending_draw,
            old(self).wf() ==> final(self).wf(),
    {
        match self.pending_draw.take() {
            Some(request) => Some(self.draw(request)),
            None => None,
        }
    }

    /// The compositor configures the window: a dimension other than zero is
    /// taken over.  The first time, the drawing that waits is started.
    pub fn configure(&mut self, width: u32, height: u32) -> (outcome: Option<
        Result<(Drawing<H>, DrawTurn), BackendError>,
    >)
        ensures
            old(self).first_configure ==> {
                &&& old(self).starts_pending(outcome)
                &&& *final(self) == old(self).configured_to(width, height).with_pending(None)
            },
            !old(self).first_configure ==> {
                &&& outcome is None
                &&& *final(self) == old(self).configured_to(width, height)
            },
            *final(self) == (WaylandState {
                width: if width > 0 { width } else { old(self).width },
                height: if height > 0 { height } else { old(self).height },
                configured: true,
                first_configure: false,
                pending_draw: if old(self).first_configure {
                    None
                } else {
                    old(self).pending_draw
                },
                ..*old(self)
            }),
            outcome is Some <==> old(self).first_configure && old(self).pending_draw is Some,
            outcome matches Some(Ok((drawing, _))) ==> Some(drawing.request)
                == old(self).pending_draw,
            old(self).wf() ==> final(self).wf(),
    {
        if width > 0 {
            self.width = width;
        }
        if height > 0 {
            self.height = height;
        }
        self.configured = true;
        if self.first_configure {
            self.first_configure = false;
            match self.pending_draw.take() {
                Some(request) => Some(self.draw(request)),
                None => None,
            }
        } else {
            None
        }
    }

    /// A seat gained a capability: whether to ask the seat for its pointer.
    pub fn new_capability(&self, capability: Capability) -> (ask: bool)
        ensures
            ask == self.asks_pointer(capability),
            ask <==> capability == Capability::Pointer && self.pointer is None,
    {
        capability == Capability::Pointer && self.pointer.is_none()
    }

    /// Takes the seat's answer; a refusal leaves the window without a pointer
    /// or with the one that it has.
    pub fn pointer_answer<E>(&mut self, answer: Result<H::Pointer, E>)
        ensures
            match answer {
                Ok(pointer) => *final(self) == old(self).with_pointer(Some(pointer)),
                Err(_) => *final(self) == *old(self),
            },
            *final(self) == (WaylandState {
                pointer: match answer {
                    Ok(pointer) => Some(pointer),
                    Err(_) => old(self).pointer,
                },
                ..*old(self)
            }),
            old(self).wf() ==> final(self).wf(),
    {
        if let Ok(pointer) = answer {
            self.pointer = Some(pointer);
        }
    }

    /// A seat lost a capability: the window forgets a lost pointer.
    pub fn remove_capability(&mut self, capability: Capability)
        ensures
            capability == Capability::Pointer ==> *final(self) == old(self).with_pointer(None),
            capability != Capability::Pointer ==> *final(self) == *old(self),
            *final(self) == (WaylandState {
                pointer: if capability == Capability::Pointer {
                    None
                } else {
                    old(self).pointer
                },
                ..*old(self)
            }),
            old(self).wf() ==> final(self).wf(),
    {
        if capability == Capability::Pointer {
            self.pointer = None;
        }
    }

    /// The pointer did something: each press on the window's surface, given by
    /// its number, dismisses the last unread notification, provided that
    /// there is a store and a handler.
    pub fn pointer_frame(&self, surface: u32, events: &[PointerEvent]) -> (actions: Vec<PressAction>)
        ensures
            actions@ == if self.manager is Some && self.on_press is Some {
                press_actions(events@, surface)
            } else {
                seq![]
            },
    {
        let mut actions: Vec<PressAction> = Vec::new();
        let attached: bool = self.manager.is_some() && self.on_press.is_some();
        let mut next: usize = 0;
        while next < events.len()
            invariant
                next <= events@.len(),
                attached == (self.manager is Some && self.on_press is Some),
                actions@ == if attached {
                    press_actions(events@.take(next as int), surface)
                } else {
                    seq![]
                },
            decreases events@.len() - next,
        {
            let event: PointerEvent = events[next];
            proof {
                assert(events@.take(next + 1).drop_last() == events@.take(next as int));
            }
            if event.surface == surface && event.kind == PointerEventKind::Press && attached {
                actions.push(PressAction::GetLastUnread);
                actions.push(PressAction::MarkLastAsRead);
                actions.push(PressAction::OnPress);
            }
            next = next + 1;
        }
        proof {
            assert(events@.take(next as int) == events@);
        }
        actions
    }
}

} // verus!
