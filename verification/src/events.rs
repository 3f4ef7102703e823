//! The window's event loop.

use vstd::prelude::*;

use crate::error::{init_error, wayland_error, BackendError, BackendErrorView};

verus! {

/// Words for a lock that its holder left behind.
pub const LOCK_POISONED: &'static str = "wayland runtime lock poisoned";

/// Words for a second start of a window's event loop.
pub const ALREADY_STARTED: &'static str = "wayland runtime already started";

/// Words before the reason why an action of the event loop failed.
pub const LOOP_ERROR: &'static str = "loop error: ";

pub const SOURCE_ERROR: &'static str = "wayland source error: ";

pub const CHANNEL_ERROR: &'static str = "channel error: ";

pub const DISPATCH_ERROR: &'static str = "loop dispatch error: ";

/// How long the event loop waits for events, in milliseconds.
pub const DISPATCH_TIMEOUT: u64 = 16;

/// What the event loop asks of the surrounding program.
#[derive(Clone, Copy, Debug, PartialEq, Eq, Structural)]
pub enum LoopAction {
    /// Create the loop.  Answered.
    CreateLoop,
    /// Watch the compositor's connection.  Answered.
    InsertSource,
    /// Hand the window what it was started with.
    Attach,
    /// Watch the window's event channel.  Answered.
    InsertChannel,
    /// Handle events, waiting no longer than this for one.  Answered.
    Dispatch { timeout_ms: u64 },
}

/// Which action waits for its answer.
#[derive(Clone, Copy, Debug, PartialEq, Eq, Structural)]
pub enum LoopPhase {
    Create,
    Source,
    Channel,
    Dispatch,
    /// The loop is over.
    Ended,
}

/// An event loop at work.
#[derive(Clone, Copy, Debug, PartialEq, Eq, Structural)]
pub struct EventPump {
    pub phase: LoopPhase,
}

/// What follows a phase that went well.
pub open spec fn next_phase(phase: LoopPhase) -> LoopPhase {
    match phase {
        LoopPhase::Create => LoopPhase::Source,
        LoopPhase::Source => LoopPhase::Channel,
        LoopPhase::Channel => LoopPhase::Dispatch,
        LoopPhase::Dispatch => LoopPhase::Dispatch,
        LoopPhase::Ended => LoopPhase::Ended,
    }
}

/// The actions that lead to a phase.
pub open spec fn loop_script(phase: LoopPhase) -> Seq<LoopAction> {
    match phase {
        LoopPhase::Create => seq![LoopAction::CreateLoop],
        LoopPhase::Source => seq![LoopAction::InsertSource],
        LoopPhase::Channel => seq![LoopAction::Attach, LoopAction::InsertChannel],
        LoopPhase::Dispatch => seq![LoopAction::Dispatch { timeout_ms: DISPATCH_TIMEOUT }],
        LoopPhase::Ended => seq![],
    }
}

/// The words before the reason, where a phase went wrong.
pub open spec fn loop_context(phase: LoopPhase) -> Seq<char> {
    match phase {
        LoopPhase::Create => LOOP_ERROR@,
        LoopPhase::Source => SOURCE_ERROR@,
        LoopPhase::Channel => CHANNEL_ERROR@,
        LoopPhase::Dispatch | LoopPhase::Ended => DISPATCH_ERROR@,
    }
}

/// What the lock round a window's runtime says when its holder panicked.
pub fn lock_poisoned() -> (error: BackendError)
    ensures
        error@ == BackendErrorView::Init(LOCK_POISONED@),
{
    init_error(LOCK_POISONED)
}

/// Takes what a window's event loop starts with out of its slot, which it
/// leaves empty: the loop of a window is started once.
pub fn claim_runtime<R>(slot: &mut Option<R>) -> (claimed: Result<R, BackendError>)
    ensures
        *final(slot) is None,
        match (*old(slot), claimed) {
            (Some(runtime), Ok(found)) => found == runtime,
            (None, Err(error)) => error@ == BackendErrorView::Init(ALREADY_STARTED@),
            _ => false,
        },
{
    match slot.take() {
        Some(runtime) => Ok(runtime),
        None => Err(init_error(ALREADY_STARTED)),
    }
}

impl EventPump {
    /// Starts the loop.
    pub fn start() -> (started: (Self, Vec<LoopAction>))
        ensures
            started.0.phase == LoopPhase::Create,
            started.1@ == loop_script(LoopPhase::Create),
    {
        (EventPump { phase: LoopPhase::Create }, vec![LoopAction::CreateLoop])
    }

    /// Goes on, given the answer to the last action: after a failure the loop
    /// is over, else there is always more to do.
    pub fn resume(&mut self, answer: Result<(), String>) -> (actions: Result<
        Vec<LoopAction>,
        BackendError,
    >)
        ensures
            match (answer, actions) {
                (Ok(()), Ok(todo)) => {
                    &&& final(self).phase == next_phase(old(self).phase)
                    &&& todo@ == loop_script(final(self).phase)
                },
                (Err(text), Err(error)) => {
                    &&& final(self).phase == LoopPhase::Ended
                    &&& error@ == BackendErrorView::Wayland(
                        loop_context(old(self).phase) + text@,
                    )
                },
                _ => false,
            },
    {
        match answer {
            Ok(()) => {
                let mut actions: Vec<LoopAction> = Vec::new();
                match self.phase {
                    LoopPhase::Create => {
                        self.phase = LoopPhase::Source;
                        actions.push(LoopAction::InsertSource);
                    },
                    LoopPhase::Source => {
                        self.phase = LoopPhase::Channel;
                        actions.push(LoopAction::Attach);
                        actions.push(LoopAction::InsertChannel);
                    },
                    LoopPhase::Channel | LoopPhase::Dispatch => {
                        self.phase = LoopPhase::Dispatch;
                        actions.push(LoopAction::Dispatch { timeout_ms: DISPATCH_TIMEOUT });
                    },
                    LoopPhase::Ended => {},
                }
                Ok(actions)
            },
            Err(text) => {
                let context: &str = match self.phase {
                    LoopPhase::Create => LOOP_ERROR,
                    LoopPhase::Source => SOURCE_ERROR,
                    LoopPhase::Channel => CHANNEL_ERROR,
                    LoopPhase::Dispatch | LoopPhase::Ended => DISPATCH_ERROR,
                };
                self.phase = LoopPhase::Ended;
                Err(wayland_error(context, text.as_str()))
            },
        }
    }
}

} // verus!
