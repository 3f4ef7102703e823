//! What holds of the backend as a whole.

use vstd::prelude::*;

use crate::backend::{Delivery, MessageJob, Wayland, WaylandWindow};
use crate::config::{Geometry, GlobalConfig};
use crate::draw::{
    as_signed, at_least_one, draw_step, fresh_drawing, present_script, row_bytes, text_script,
    DrawAction, DrawModel, DrawPhase, DrawReplyView, DrawStep, DrawTurn, Drawing, Ink,
    ATTACH_ERROR,
};
use crate::error::{BackendError, BackendErrorView};
use crate::events::{loop_script, next_phase, LoopAction, LoopPhase, DISPATCH_TIMEOUT};
use crate::host::Host;
use crate::scan::{list_in_test, scan, ScanMode};
use crate::setup::{
    layer_script, place_script, setup_step, SetupAction, SetupPhase, SetupStep, SetupTurn, WindowSetup,
    REGISTRY_ERROR, ROUNDTRIP_ERROR,
};
use crate::state::{
    press_actions, press_script, Capability, ChannelEvent, DrawRequest, PointerEvent, PointerEventKind,
    WaylandEvent, WaylandState, WindowAction,
};
use crate::template::{is_white_space, tera_filters, tera_templates, trimmed, WindowRenderState};

verus! {

// Showing and hiding.

/// A window that was hidden gets its size back when it is shown again.
pub proof fn law_shown_again_in_the_same_size<H: Host>(state: WaylandState<H>)
    ensures
        ({
            let requests = state.event_actions(WaylandEvent::Hide) + state.event_actions(
                WaylandEvent::Show,
            );
            &&& requests[0] == WindowAction::SetSize { width: 1, height: 1 }
            &&& requests[2] == WindowAction::SetSize { width: state.width, height: state.height }
        }),
{
}

/// Every answer to an event commits the layer, after its size was set.
pub proof fn law_events_commit<H: Host>(state: WaylandState<H>, event: WaylandEvent)
    ensures
        state.event_actions(event)[0] is SetSize,
        state.event_actions(event)[1] == WindowAction::Commit,
{
}

/// Before the compositor has configured the window, showing it asks for no
/// drawing.
pub proof fn law_nothing_drawn_before_configure<H: Host>(
    state: WaylandState<H>,
    event: WaylandEvent,
)
    requires
        !state.configured,
    ensures
        !state.event_actions(event).contains(WindowAction::QueryUnread),
{
}

/// The first configure event finds no drawing that waits.
pub proof fn law_first_configure_finds_no_drawing<H: Host>(state: WaylandState<H>)
    requires
        state.wf(),
        state.first_configure,
    ensures
        state.pending_draw is None,
{
}

/// A drawing that waits finds a configuration: it does not fail for want of
/// one.
pub proof fn law_waiting_drawing_finds_config<H: Host>(
    state: WaylandState<H>,
    outcome: Option<Result<(Drawing<H>, DrawTurn), BackendError>>,
)
    requires
        state.wf(),
        state.starts_pending(outcome),
    ensures
        outcome matches Some(started) ==> started is Ok,
{
}

/// Showing a window that can draw leads to a drawing of what the store
/// answers: the frame event after it starts with the commands of that
/// notification.
pub proof fn law_show_leads_to_drawing<H: Host>(
    state: WaylandState<H>,
    request: DrawRequest<H>,
    outcome: Option<Result<(Drawing<H>, DrawTurn), BackendError>>,
)
    requires
        state.wf(),
        state.drawable(),
        state.with_pending(Some(request)).starts_pending(outcome),
    ensures
        state.event_actions(WaylandEvent::Show)[2] == WindowAction::QueryUnread,
        outcome matches Some(Ok((drawing, turn))) && drawing.request == request
            && turn.actions@ == seq![DrawAction::RunCommands],
{
}

/// A notification that was queued is drawn by the next frame, and by that one
/// only; of two that were queued, the frame draws the later one.
pub proof fn law_queued_drawing_is_given_once<H: Host>(
    state: WaylandState<H>,
    earlier: DrawRequest<H>,
    later: DrawRequest<H>,
    next: Option<Result<(Drawing<H>, DrawTurn), BackendError>>,
    after_next: Option<Result<(Drawing<H>, DrawTurn), BackendError>>,
)
    requires
        state.wf(),
        state.drawable(),
        ({
            let queued = state.with_pending(Some(earlier)).with_pending(Some(later));
            &&& queued.starts_pending(next)
            &&& queued.with_pending(None).starts_pending(after_next)
        }),
    ensures
        next matches Some(Ok((drawing, turn))) && drawing.request == later && turn.actions@
            == seq![DrawAction::RunCommands],
        after_next is None,
{
}

/// What a window asks for while its event channel brings the events, one after
/// the other, in the states that it is in when they come.
pub open spec fn channel_run<H: Host>(
    states: Seq<WaylandState<H>>,
    events: Seq<ChannelEvent>,
) -> Seq<WindowAction>
    decreases events.len(),
{
    if events.len() == 0 {
        seq![]
    } else {
        channel_run(states, events.drop_last()) + states[events.len() - 1].channel_actions(
            events.last(),
        )
    }
}

/// Every message that the channel brings is answered once and in its turn: what
/// follows on it stands behind all that followed on those before it, and before
/// all that follows on those after it.  That the channel was closed is answered
/// with nothing.
pub proof fn law_messages_are_answered_in_turn<H: Host>(
    states: Seq<WaylandState<H>>,
    events: Seq<ChannelEvent>,
    position: int,
)
    requires
        0 <= position < events.len() == states.len(),
    ensures
        channel_run(states, events) == channel_run(
            states.take(position),
            events.take(position),
        ) + states[position].channel_actions(events[position]) + channel_run(
            states.skip(position + 1),
            events.skip(position + 1),
        ),
        events[position] matches ChannelEvent::Msg(message) ==> states[position].channel_actions(
            events[position],
        ) == states[position].event_actions(message),
        events[position] == ChannelEvent::Closed ==> states[position].channel_actions(
            events[position],
        ).len() == 0,
    decreases events.len(),
{
    let last = events.len() - 1;
    let earlier = events.drop_last();
    let later = events.skip(position + 1);
    lemma_channel_run_states(states, states.drop_last(), earlier);
    if position == last {
        assert(events.take(position) == earlier);
        assert(states.take(position) == states.drop_last());
        assert(later.len() == 0);
    } else {
        law_messages_are_answered_in_turn(states.drop_last(), earlier, position);
        assert(earlier.take(position) == events.take(position));
        assert(states.drop_last().take(position) == states.take(position));
        assert(earlier.skip(position + 1) == later.drop_last());
        assert(states.drop_last().skip(position + 1) == states.skip(position + 1).drop_last());
        assert(later.last() == events.last());
        assert(states.skip(position + 1)[later.len() - 1] == states[last]);
        lemma_channel_run_states(
            states.skip(position + 1),
            states.skip(position + 1).drop_last(),
            later.drop_last(),
        );
        assert(channel_run(states, events) == channel_run(
            states.take(position),
            events.take(position),
        ) + states[position].channel_actions(events[position]) + channel_run(
            states.skip(position + 1),
            later,
        ));
    }
}

/// See [`channel_run`]: later states do not matter.
proof fn lemma_channel_run_states<H: Host>(
    states: Seq<WaylandState<H>>,
    others: Seq<WaylandState<H>>,
    events: Seq<ChannelEvent>,
)
    requires
        forall|i: int| 0 <= i < events.len() ==> states[i] == #[trigger] others[i],
    ensures
        channel_run(states, events) == channel_run(others, events),
    decreases events.len(),
{
    if events.len() > 0 {
        assert(states[events.len() - 1] == others[events.len() - 1]);
        lemma_channel_run_states(states, others, events.drop_last());
    }
}

/// A configure event with two dimensions sets the size, whatever it was; one
/// without dimensions keeps it; and a second one of the same kind changes
/// nothing more.
pub proof fn law_configure_sets_the_size<H: Host>(
    state: WaylandState<H>,
    width: u32,
    height: u32,
)
    ensures
        width > 0 && height > 0 ==> state.configured_to(width, height).size() == (width, height),
        state.configured_to(0, 0).size() == state.size(),
        state.configured_to(width, height).configured_to(width, height) == state.configured_to(
            width,
            height,
        ),
        state.configured_to(width, height).pending_draw == state.pending_draw,
{
}

// Pointer.

/// A seat is asked for its pointer only while the window has none, and again
/// after the pointer was lost.
pub proof fn law_pointer_is_asked_for_when_missing<H: Host>(
    state: WaylandState<H>,
    pointer: H::Pointer,
    capability: Capability,
)
    ensures
        !state.with_pointer(Some(pointer)).asks_pointer(capability),
        state.with_pointer(Some(pointer)).with_pointer(None).asks_pointer(Capability::Pointer),
        capability != Capability::Pointer ==> !state.asks_pointer(capability),
{
}

/// The presses on a surface.
pub open spec fn presses(events: Seq<PointerEvent>, surface: u32) -> Seq<PointerEvent> {
    events.filter(|event: PointerEvent| event.surface == surface && event.kind == PointerEventKind::Press)
}

/// Each press on the window, and nothing else, sets off the script of a press.
pub proof fn law_each_press_counts_once(events: Seq<PointerEvent>, surface: u32)
    ensures
        press_actions(events, surface).len() == 3 * presses(events, surface).len(),
        forall|i: int|
            0 <= i < press_actions(events, surface).len() ==> press_actions(events, surface)[i]
                == press_script()[i % 3],
    decreases events.len(),
{
    reveal(Seq::filter);
    if events.len() > 0 {
        law_each_press_counts_once(events.drop_last(), surface);
    }
}

/// It makes no difference whether pointer events come in one frame or in two.
pub proof fn law_pointer_frames_add_up(
    first: Seq<PointerEvent>,
    second: Seq<PointerEvent>,
    surface: u32,
)
    ensures
        press_actions(first + second, surface) == press_actions(first, surface) + press_actions(
            second,
            surface,
        ),
    decreases second.len(),
{
    if second.len() == 0 {
        assert(first + second == first);
    } else {
        law_pointer_frames_add_up(first, second.drop_last(), surface);
        assert((first + second).drop_last() == first + second.drop_last());
    }
}

// Creating the window.

/// A window that is being created, from the start through the given answers:
/// the phase at the end, all that was done, and how it went.  `loaded` is how
/// the message template fares.
pub open spec fn setup_run(
    geometry: Geometry,
    loaded: Result<(), BackendErrorView>,
    answers: Seq<Result<(), Seq<char>>>,
) -> SetupStep
    decreases answers.len(),
{
    if answers.len() == 0 {
        SetupStep {
            phase: SetupPhase::Registry,
            actions: seq![SetupAction::InitRegistry],
            result: None,
        }
    } else {
        let before = setup_run(geometry, loaded, answers.drop_last());
        let step = setup_step(geometry, before.phase, answers.last(), loaded);
        SetupStep {
            phase: step.phase,
            actions: before.actions + step.actions,
            result: if before.result is Some {
                before.result
            } else {
                step.result
            },
        }
    }
}

/// As many good answers.
pub open spec fn good_answers(count: nat) -> Seq<Result<(), Seq<char>>> {
    Seq::new(count, |i: int| Ok::<(), Seq<char>>(()))
}

/// The creation after a number of good answers.
proof fn lemma_setup_push(geometry: Geometry, loaded: Result<(), BackendErrorView>, count: nat)
    ensures
        ({
            let before = setup_run(geometry, loaded, good_answers(count));
            let run = setup_run(geometry, loaded, good_answers(count + 1));
            let step = setup_step(geometry, before.phase, Ok(()), loaded);
            &&& run.phase == step.phase
            &&& run.actions == before.actions + step.actions
            &&& run.result == if before.result is Some {
                before.result
            } else {
                step.result
            }
        }),
{
    assert(good_answers(count + 1).drop_last() == good_answers(count));
}

/// The requests that come before the layer surface.
pub open spec fn bind_script() -> Seq<SetupAction> {
    seq![
        SetupAction::InitRegistry,
        SetupAction::BindCompositor,
        SetupAction::BindLayerShell,
        SetupAction::BindShm,
    ]
}

/// A window whose place fits and whose template is accepted is created after
/// six good answers; this is all that is done, in order.
pub proof fn law_window_is_created(geometry: Geometry)
    requires
        geometry.place_fits(),
    ensures
        ({
            let run = setup_run(geometry, Ok(()), good_answers(6));
            &&& run.result == Some(Ok::<(), BackendErrorView>(()))
            &&& run.actions == bind_script() + layer_script() + place_script(geometry) + seq![
                SetupAction::OpenChannel,
                SetupAction::TrackGlobals,
                SetupAction::Roundtrip,
            ]
        }),
{
    lemma_setup_push(geometry, Ok(()), 0);
    lemma_setup_push(geometry, Ok(()), 1);
    lemma_setup_push(geometry, Ok(()), 2);
    lemma_setup_push(geometry, Ok(()), 3);
    lemma_setup_push(geometry, Ok(()), 4);
    lemma_setup_push(geometry, Ok(()), 5);
    let run = setup_run(geometry, Ok(()), good_answers(6));
    assert(run.actions == bind_script() + layer_script() + place_script(geometry) + seq![
        SetupAction::OpenChannel,
        SetupAction::TrackGlobals,
        SetupAction::Roundtrip,
    ]);
}

/// A window whose place does not fit is refused after four good answers, and
/// whatever is answered, it is never given a place or a size nor committed.
pub proof fn law_misplaced_window_is_refused(
    geometry: Geometry,
    loaded: Result<(), BackendErrorView>,
)
    requires
        !geometry.place_fits(),
    ensures
        ({
            let run = setup_run(geometry, loaded, good_answers(4));
            &&& run.result == Some(
                Err::<(), BackendErrorView>(BackendErrorView::IntegerConversion),
            )
            &&& run.actions == bind_script() + layer_script()
        }),
        forall|answers: Seq<Result<(), Seq<char>>>, i: int|
            #![trigger setup_run(geometry, loaded, answers).actions[i]]
            0 <= i < setup_run(geometry, loaded, answers).actions.len() ==> {
                let action = setup_run(geometry, loaded, answers).actions[i];
                action !is SetMargin && action !is SetSize && action !is Commit && action !is CreatePool
            },
{
    lemma_setup_push(geometry, loaded, 0);
    lemma_setup_push(geometry, loaded, 1);
    lemma_setup_push(geometry, loaded, 2);
    lemma_setup_push(geometry, loaded, 3);
    let run = setup_run(geometry, loaded, good_answers(4));
    assert(run.actions == bind_script() + layer_script());
    assert forall|answers: Seq<Result<(), Seq<char>>>, i: int|
        #![trigger setup_run(geometry, loaded, answers).actions[i]]
        0 <= i < setup_run(geometry, loaded, answers).actions.len() implies {
        let action = setup_run(geometry, loaded, answers).actions[i];
        action !is SetMargin && action !is SetSize && action !is Commit && action !is CreatePool
    } by {
        lemma_never_placed(geometry, loaded, answers);
    }
}

/// See [`law_misplaced_window_is_refused`].
proof fn lemma_never_placed(
    geometry: Geometry,
    loaded: Result<(), BackendErrorView>,
    answers: Seq<Result<(), Seq<char>>>,
)
    requires
        !geometry.place_fits(),
    ensures
        ({
            let run = setup_run(geometry, loaded, answers);
            &&& run.phase != SetupPhase::Pool && run.phase != SetupPhase::Roundtrip
            &&& forall|i: int|
                0 <= i < run.actions.len() ==> {
                    let action = #[trigger] run.actions[i];
                    action !is SetMargin && action !is SetSize && action !is Commit && action !is CreatePool
                }
        }),
    decreases answers.len(),
{
    if answers.len() > 0 {
        lemma_never_placed(geometry, loaded, answers.drop_last());
        let before = setup_run(geometry, loaded, answers.drop_last());
        let step = setup_step(geometry, before.phase, answers.last(), loaded);
        let run = setup_run(geometry, loaded, answers);
        assert forall|i: int| 0 <= i < run.actions.len() implies {
            let action = #[trigger] run.actions[i];
            action !is SetMargin && action !is SetSize && action !is Commit && action !is CreatePool
        } by {
            if i < before.actions.len() {
                assert(run.actions[i] == before.actions[i]);
            } else {
                assert(run.actions[i] == step.actions[i - before.actions.len()]);
            }
        }
    }
}

/// A refusal of the compositor ends the creation at once: nothing more is
/// done, and the refusal is reported in the compositor's words, with the words
/// before them that the step calls for.
pub proof fn law_refusal_ends_the_creation(
    geometry: Geometry,
    loaded: Result<(), BackendErrorView>,
    phase: SetupPhase,
    text: Seq<char>,
)
    requires
        phase != SetupPhase::Ended,
    ensures
        ({
            let step = setup_step(geometry, phase, Err(text), loaded);
            &&& step.phase == SetupPhase::Ended
            &&& step.actions.len() == 0
            &&& step.result == Some(
                Err::<(), BackendErrorView>(
                    BackendErrorView::Wayland(
                        match phase {
                            SetupPhase::Registry => REGISTRY_ERROR@ + text,
                            SetupPhase::Roundtrip => ROUNDTRIP_ERROR@ + text,
                            _ => text,
                        },
                    ),
                ),
            )
        }),
{
    assert(Seq::<char>::empty() + text == text);
}

/// A window is created only where every answer was good, its place fits and
/// its template was accepted.
pub proof fn law_created_window_met_no_refusal(
    geometry: Geometry,
    loaded: Result<(), BackendErrorView>,
    answers: Seq<Result<(), Seq<char>>>,
)
    requires
        setup_run(geometry, loaded, answers).result == Some(Ok::<(), BackendErrorView>(())),
    ensures
        geometry.place_fits(),
        loaded is Ok,
        answers.len() >= 6,
        forall|i: int| 0 <= i < 6 ==> #[trigger] answers[i] is Ok,
{
    lemma_setup_invariant(geometry, loaded, answers);
}

/// How many good answers a phase comes after.
pub open spec fn setup_progress(phase: SetupPhase) -> int {
    match phase {
        SetupPhase::Registry => 0,
        SetupPhase::Compositor => 1,
        SetupPhase::LayerShell => 2,
        SetupPhase::Shm => 3,
        SetupPhase::Pool => 4,
        SetupPhase::Roundtrip => 5,
        SetupPhase::Ended => 6,
    }
}

/// See [`law_created_window_met_no_refusal`].
proof fn lemma_setup_invariant(
    geometry: Geometry,
    loaded: Result<(), BackendErrorView>,
    answers: Seq<Result<(), Seq<char>>>,
)
    ensures
        ({
            let run = setup_run(geometry, loaded, answers);
            &&& run.result is Some <==> run.phase == SetupPhase::Ended
            &&& run.phase != SetupPhase::Ended ==> {
                &&& answers.len() == setup_progress(run.phase)
                &&& forall|i: int| 0 <= i < answers.len() ==> #[trigger] answers[i] is Ok
                &&& setup_progress(run.phase) >= 4 ==> geometry.place_fits()
                &&& setup_progress(run.phase) >= 5 ==> loaded is Ok
            }
            &&& run.result == Some(Ok::<(), BackendErrorView>(())) ==> {
                &&& answers.len() >= 6
                &&& forall|i: int| 0 <= i < 6 ==> #[trigger] answers[i] is Ok
                &&& geometry.place_fits()
                &&& loaded is Ok
            }
        }),
    decreases answers.len(),
{
    if answers.len() > 0 {
        lemma_setup_invariant(geometry, loaded, answers.drop_last());
        assert forall|i: int| 0 <= i < answers.len() - 1 implies answers[i]
            == answers.drop_last()[i] by {}
    }
}

/// A window's event channel is opened once at most, and a window that was
/// created has one.
pub proof fn law_one_channel_for_each_window(
    geometry: Geometry,
    loaded: Result<(), BackendErrorView>,
    answers: Seq<Result<(), Seq<char>>>,
)
    ensures
        ({
            let run = setup_run(geometry, loaded, answers);
            &&& forall|i: int, j: int|
                0 <= i < j < run.actions.len() ==> !(#[trigger] run.actions[i] is OpenChannel
                    && #[trigger] run.actions[j] is OpenChannel)
            &&& run.result == Some(Ok::<(), BackendErrorView>(())) ==> run.actions.contains(
                SetupAction::OpenChannel,
            )
        }),
{
    lemma_channel(geometry, loaded, answers);
}

/// See [`law_one_channel_for_each_window`].
proof fn lemma_channel(
    geometry: Geometry,
    loaded: Result<(), BackendErrorView>,
    answers: Seq<Result<(), Seq<char>>>,
)
    ensures
        ({
            let run = setup_run(geometry, loaded, answers);
            let opened = run.actions.contains(SetupAction::OpenChannel);
            &&& setup_progress(run.phase) < 5 ==> !opened
            &&& run.phase == SetupPhase::Roundtrip ==> opened
            &&& run.result is Some <==> run.phase == SetupPhase::Ended
            &&& run.result == Some(Ok::<(), BackendErrorView>(())) ==> opened
            &&& forall|i: int, j: int|
                0 <= i < j < run.actions.len() ==> !(#[trigger] run.actions[i] is OpenChannel
                    && #[trigger] run.actions[j] is OpenChannel)
        }),
    decreases answers.len(),
{
    if answers.len() > 0 {
        lemma_channel(geometry, loaded, answers.drop_last());
        let before = setup_run(geometry, loaded, answers.drop_last());
        let step = setup_step(geometry, before.phase, answers.last(), loaded);
        let run = setup_run(geometry, loaded, answers);
        let opens = before.phase == SetupPhase::Pool && answers.last() is Ok;
        assert(run.actions == before.actions + step.actions);
        assert forall|i: int| 0 <= i < run.actions.len() && run.actions[i] is OpenChannel implies {
            if i < before.actions.len() {
                before.actions.contains(SetupAction::OpenChannel) && before.actions[i] is OpenChannel
            } else {
                opens && i == before.actions.len()
            }
        } by {
            if i < before.actions.len() {
                assert(run.actions[i] == before.actions[i]);
            } else {
                assert(run.actions[i] == step.actions[i - before.actions.len()]);
            }
        }
        if opens {
            assert(run.actions[before.actions.len() as int] == SetupAction::OpenChannel);
        }
        if before.actions.contains(SetupAction::OpenChannel) {
            let i = before.actions.index_of(SetupAction::OpenChannel);
            assert(run.actions[i] == SetupAction::OpenChannel);
        }
    }
}

/// Windows that are created one after the other know nothing of each other:
/// the backend is as it was, and the second window starts as it would have
/// started without the first.
pub proof fn law_windows_are_created_independently<'a, H: Host>(
    backend: Wayland<H>,
    between: Wayland<H>,
    after: Wayland<H>,
    first_config: &'a GlobalConfig,
    second_config: &'a GlobalConfig,
    first: (WindowSetup<'a>, SetupTurn<H>),
    second: (WindowSetup<'a>, SetupTurn<H>),
)
    requires
        backend.starts_window(between, first_config, first),
        between.starts_window(after, second_config, second),
    ensures
        after == backend,
        backend.starts_window(backend, second_config, second),
        first.0.config == first_config,
        second.0.config == second_config,
{
}

/// What a channel that was empty holds once the deliveries were made: the
/// events of those that were for its sender, in order.
pub open spec fn channel_holds<H: Host>(
    event_sender: H::EventSender,
    deliveries: Seq<Delivery<'_, H>>,
) -> Seq<WaylandEvent>
    decreases deliveries.len(),
{
    if deliveries.len() == 0 {
        seq![]
    } else {
        let before = channel_holds(event_sender, deliveries.drop_last());
        if *deliveries.last().event_sender == event_sender {
            before.push(deliveries.last().event)
        } else {
            before
        }
    }
}

/// Whatever a window is asked to do, its channel holds exactly that, in the
/// order in which it was asked, and the channel of a window with another sender
/// holds nothing of it.
pub proof fn law_requests_are_queued_in_order<H: Host>(
    window: WaylandWindow<H>,
    other: WaylandWindow<H>,
    requests: Seq<WaylandEvent>,
    deliveries: Seq<Delivery<'_, H>>,
)
    requires
        requests.len() == deliveries.len(),
        forall|i: int|
            0 <= i < requests.len() ==> window.delivers(#[trigger] requests[i], deliveries[i]),
    ensures
        channel_holds(window.event_sender, deliveries) == requests,
        other.event_sender != window.event_sender ==> channel_holds(
            other.event_sender,
            deliveries,
        ).len() == 0,
    decreases requests.len(),
{
    if requests.len() > 0 {
        let last = requests.len() - 1;
        assert forall|i: int| 0 <= i < last implies window.delivers(
            #[trigger] requests.drop_last()[i],
            deliveries.drop_last()[i],
        ) by {
            assert(window.delivers(requests[i], deliveries[i]));
        }
        law_requests_are_queued_in_order(
            window,
            other,
            requests.drop_last(),
            deliveries.drop_last(),
        );
        assert(window.delivers(requests[last], deliveries[last]));
        assert(requests == requests.drop_last().push(requests.last()));
    }
}

/// What is delivered to one window is not delivered to another one that has a
/// channel of its own, and each window renders as its own state does.
pub proof fn law_windows_are_served_independently<H: Host>(
    first: WaylandWindow<H>,
    first_sender: H::EventSender,
    first_state: WaylandState<H>,
    first_runtime: H::Runtime,
    second: WaylandWindow<H>,
    second_sender: H::EventSender,
    second_state: WaylandState<H>,
    second_runtime: H::Runtime,
    event: WaylandEvent,
    delivery: Delivery<'_, H>,
)
    requires
        first.made_of(first_sender, first_state, first_runtime),
        second.made_of(second_sender, second_state, second_runtime),
        first_sender != second_sender,
        first.delivers(event, delivery),
    ensures
        *delivery.event_sender == first_sender,
        forall|other: WaylandEvent| !second.delivers(other, delivery),
        tera_templates(*first.template) == tera_templates(first_state.window.template),
        tera_templates(*second.template) == tera_templates(second_state.window.template),
{
}

// Event loop.

/// The actions of an event loop up to its `turns`-th good answer.
pub open spec fn loop_run(turns: nat) -> (LoopPhase, Seq<LoopAction>)
    decreases turns,
{
    if turns == 0 {
        (LoopPhase::Create, loop_script(LoopPhase::Create))
    } else {
        let (phase, actions) = loop_run((turns - 1) as nat);
        (next_phase(phase), actions + loop_script(next_phase(phase)))
    }
}

/// As long as nothing fails, an event loop prepares itself once and then
/// dispatches events for good; the window was handed what it needs before the
/// first event is dispatched, and once.
pub proof fn law_event_loop_never_finishes(turns: nat)
    requires
        turns >= 3,
    ensures
        loop_run(turns).0 == LoopPhase::Dispatch,
        loop_run(turns).1 == seq![
            LoopAction::CreateLoop,
            LoopAction::InsertSource,
            LoopAction::Attach,
            LoopAction::InsertChannel,
        ] + Seq::new(
            (turns - 2) as nat,
            |i: int| LoopAction::Dispatch { timeout_ms: DISPATCH_TIMEOUT },
        ),
    decreases turns,
{
    if turns == 3 {
        reveal_with_fuel(loop_run, 4);
        assert(loop_run(3).1 == seq![
            LoopAction::CreateLoop,
            LoopAction::InsertSource,
            LoopAction::Attach,
            LoopAction::InsertChannel,
        ] + Seq::new(1, |i: int| LoopAction::Dispatch { timeout_ms: DISPATCH_TIMEOUT }));
    } else {
        law_event_loop_never_finishes((turns - 1) as nat);
    }
}

// Drawing.

/// A whole drawing, from its start through the given answers: the window's
/// size and the drawing at the end, all that was done, and how it went.
#[verifier::opaque]
pub open spec fn draw_run(
    size: (u32, u32),
    wrap_content: bool,
    unread_count: usize,
    replies: Seq<DrawReplyView>,
) -> DrawStep
    decreases replies.len(),
{
    if replies.len() == 0 {
        DrawStep {
            size,
            drawing: fresh_drawing(wrap_content, unread_count),
            actions: seq![DrawAction::RunCommands],
            result: None,
        }
    } else {
        draw_on(
            draw_run(size, wrap_content, unread_count, replies.drop_last()),
            replies.last(),
        )
    }
}

/// A drawing and one answer more.
pub open spec fn draw_on(before: DrawStep, reply: DrawReplyView) -> DrawStep {
    let step = draw_step(before.size, before.drawing, reply);
    DrawStep {
        size: step.size,
        drawing: step.drawing,
        actions: before.actions + step.actions,
        result: if before.result is Some {
            before.result
        } else {
            step.result
        },
    }
}

/// A drawing without answers.
proof fn lemma_draw_run_start(size: (u32, u32), wrap_content: bool, unread_count: usize)
    ensures
        draw_run(size, wrap_content, unread_count, seq![]) == (DrawStep {
            size,
            drawing: fresh_drawing(wrap_content, unread_count),
            actions: seq![DrawAction::RunCommands],
            result: None,
        }),
{
    reveal(draw_run);
}

/// See [`draw_run`]: the last answer comes last.
proof fn lemma_draw_run_push(
    size: (u32, u32),
    wrap_content: bool,
    unread_count: usize,
    replies: Seq<DrawReplyView>,
    reply: DrawReplyView,
)
    ensures
        draw_run(size, wrap_content, unread_count, replies.push(reply)) == draw_on(
            draw_run(size, wrap_content, unread_count, replies),
            reply,
        ),
{
    reveal(draw_run);
    assert(replies.push(reply).drop_last() == replies);
}

/// What every drawing does up to the painted background and the message on
/// it, in a window of the given size.
pub open spec fn canvas_script(size: (u32, u32), unread_count: usize) -> Seq<DrawAction> {
    let width = at_least_one(size.0 as int) as u32;
    let height = at_least_one(size.1 as int) as u32;
    let stride = as_signed(row_bytes(width) as u32);
    seq![
        DrawAction::RunCommands,
        DrawAction::RenderMessage { unread_count },
        DrawAction::CreateBuffer {
            width: as_signed(width),
            height: as_signed(height),
            stride,
        },
        DrawAction::CreateImage {
            width: as_signed(width),
            height: as_signed(height),
            stride,
        },
        DrawAction::CreateContext,
        DrawAction::CreateLayout,
        DrawAction::SetSource { ink: Ink::Background },
        DrawAction::Fill,
        DrawAction::Paint,
        DrawAction::SetSource { ink: Ink::Foreground },
        DrawAction::MoveTo { x: 0, y: 0 },
        DrawAction::SetMarkup,
    ]
}

/// How every drawing that goes well ends, in a window that had the given size
/// when it began.
pub open spec fn ending_script(size: (u32, u32)) -> Seq<DrawAction> {
    seq![
        DrawAction::ShowLayout,
        DrawAction::Damage {
            x: 0,
            y: 0,
            width: as_signed(at_least_one(size.0 as int) as u32),
            height: as_signed(at_least_one(size.1 as int) as u32),
        },
        DrawAction::RequestFrame,
        DrawAction::AttachBuffer,
        DrawAction::Commit,
    ]
}

/// The answers of a drawing that goes well up to the message.
pub open spec fn canvas_replies(message: Seq<char>) -> Seq<DrawReplyView> {
    seq![
        DrawReplyView::Done,
        DrawReplyView::Message(message),
        DrawReplyView::Done,
        DrawReplyView::Done,
        DrawReplyView::Done,
        DrawReplyView::Done,
        DrawReplyView::Done,
    ]
}

/// The drawing after [`canvas_replies`].
#[verifier::spinoff_prover]
proof fn lemma_canvas(
    size: (u32, u32),
    wrap_content: bool,
    unread_count: usize,
    message: Seq<char>,
)
    ensures
        ({
            let run = draw_run(size, wrap_content, unread_count, canvas_replies(message));
            &&& run.size == size
            &&& run.result is None
            &&& run.drawing.message == message
            &&& run.drawing.wrap_content == wrap_content
            &&& run.drawing.width == at_least_one(size.0 as int)
            &&& run.drawing.height == at_least_one(size.1 as int)
            &&& wrap_content ==> run.drawing.phase == DrawPhase::Measure && run.actions
                == canvas_script(size, unread_count).push(DrawAction::Measure)
            &&& !wrap_content ==> run.drawing.phase == DrawPhase::Attach && run.actions
                == canvas_script(size, unread_count) + present_script(run.drawing)
        }),
{
    let done = DrawReplyView::Done;
    let script = canvas_script(size, unread_count);
    let fresh = fresh_drawing(wrap_content, unread_count);
    let width = at_least_one(size.0 as int) as u32;
    let height = at_least_one(size.1 as int) as u32;
    let stride = as_signed(row_bytes(width) as u32);
    let rendered = DrawModel { message, width, height, stride, ..fresh };
    let r0 = Seq::<DrawReplyView>::empty();
    lemma_draw_run_start(size, wrap_content, unread_count);
    let r1 = r0.push(done);
    let r2 = r1.push(DrawReplyView::Message(message));
    let r3 = r2.push(done);
    let r4 = r3.push(done);
    let r5 = r4.push(done);
    let r6 = r5.push(done);
    let r7 = r6.push(done);
    assert(draw_run(size, wrap_content, unread_count, r1) =~= (DrawStep {
        size,
        drawing: DrawModel { phase: DrawPhase::Render, ..fresh },
        actions: script.take(2),
        result: None,
    })) by {
        lemma_draw_run_push(size, wrap_content, unread_count, r0, done);
    }
    assert(draw_run(size, wrap_content, unread_count, r2) =~= (DrawStep {
        size,
        drawing: DrawModel { phase: DrawPhase::Buffer, ..rendered },
        actions: script.take(3),
        result: None,
    })) by {
        lemma_draw_run_push(size, wrap_content, unread_count, r1, DrawReplyView::Message(message));
    }
    assert(draw_run(size, wrap_content, unread_count, r3) =~= (DrawStep {
        size,
        drawing: DrawModel { phase: DrawPhase::Image, ..rendered },
        actions: script.take(4),
        result: None,
    })) by {
        lemma_draw_run_push(size, wrap_content, unread_count, r2, done);
    }
    assert(draw_run(size, wrap_content, unread_count, r4) =~= (DrawStep {
        size,
        drawing: DrawModel { phase: DrawPhase::Context, ..rendered },
        actions: script.take(5),
        result: None,
    })) by {
        lemma_draw_run_push(size, wrap_content, unread_count, r3, done);
    }
    assert(draw_run(size, wrap_content, unread_count, r5) =~= (DrawStep {
        size,
        drawing: DrawModel { phase: DrawPhase::Fill, ..rendered },
        actions: script.take(8),
        result: None,
    })) by {
        lemma_draw_run_push(size, wrap_content, unread_count, r4, done);
    }
    assert(draw_run(size, wrap_content, unread_count, r6) =~= (DrawStep {
        size,
        drawing: DrawModel { phase: DrawPhase::Paint, ..rendered },
        actions: script.take(9),
        result: None,
    })) by {
        lemma_draw_run_push(size, wrap_content, unread_count, r5, done);
    }
    lemma_draw_run_push(size, wrap_content, unread_count, r6, done);
    assert(r7 == canvas_replies(message));
    let run = draw_run(size, wrap_content, unread_count, r7);
    assert(script.take(9) + text_script() == script);
    if wrap_content {
        assert(run.actions == script.push(DrawAction::Measure));
    } else {
        assert(run.actions == script + present_script(run.drawing));
    }
}

/// A drawing that goes well in a window of fixed size: what is done, in order,
/// and that the window keeps its size.
pub proof fn law_good_drawing_of_fixed_size(
    size: (u32, u32),
    unread_count: usize,
    message: Seq<char>,
)
    ensures
        ({
            let run = draw_run(
                size,
                false,
                unread_count,
                canvas_replies(message).push(DrawReplyView::Done),
            );
            &&& run.result == Some(Ok::<(), BackendErrorView>(()))
            &&& run.size == size
            &&& run.drawing.message == message
            &&& run.actions == canvas_script(size, unread_count) + ending_script(size)
        }),
{
    lemma_canvas(size, false, unread_count, message);
    lemma_draw_run_push(size, false, unread_count, canvas_replies(message), DrawReplyView::Done);
    let run = draw_run(
        size,
        false,
        unread_count,
        canvas_replies(message).push(DrawReplyView::Done),
    );
    assert(run.actions == canvas_script(size, unread_count) + ending_script(size));
}

/// A drawing that goes well in a window that takes the size of its text: what
/// is done, in order, and the size that the window takes.  The image still has
/// the size that the window had.
pub proof fn law_good_drawing_of_measured_size(
    size: (u32, u32),
    unread_count: usize,
    message: Seq<char>,
    width: i32,
    height: i32,
)
    ensures
        ({
            let run = draw_run(
                size,
                true,
                unread_count,
                canvas_replies(message).push(DrawReplyView::Measured { width, height }).push(
                    DrawReplyView::Done,
                ),
            );
            let measured = (at_least_one(width as int) as u32, at_least_one(height as int) as u32);
            &&& run.result == Some(Ok::<(), BackendErrorView>(()))
            &&& run.size == measured
            &&& run.drawing.message == message
            &&& run.actions == canvas_script(size, unread_count) + seq![
                DrawAction::Measure,
                DrawAction::SetSize(measured.0, measured.1),
            ] + ending_script(size)
        }),
{
    let measure = DrawReplyView::Measured { width, height };
    let replies = canvas_replies(message).push(measure);
    lemma_canvas(size, true, unread_count, message);
    lemma_draw_run_push(size, true, unread_count, canvas_replies(message), measure);
    lemma_draw_run_push(size, true, unread_count, replies, DrawReplyView::Done);
    let run = draw_run(size, true, unread_count, replies.push(DrawReplyView::Done));
    let measured = (at_least_one(width as int) as u32, at_least_one(height as int) as u32);
    assert(run.actions == canvas_script(size, unread_count) + seq![
        DrawAction::Measure,
        DrawAction::SetSize(measured.0, measured.1),
    ] + ending_script(size));
}

/// The surface is committed by a drawing that goes well, and by no other.
pub proof fn law_commit_exactly_on_success(
    size: (u32, u32),
    wrap_content: bool,
    unread_count: usize,
    replies: Seq<DrawReplyView>,
)
    ensures
        ({
            let run = draw_run(size, wrap_content, unread_count, replies);
            &&& run.actions.contains(DrawAction::Commit) <==> run.result == Some(
                Ok::<(), BackendErrorView>(()),
            )
            &&& run.result is Some <==> run.drawing.phase == DrawPhase::Ended
        }),
    decreases replies.len(),
{
    reveal(draw_run);
    if replies.len() > 0 {
        let before = draw_run(size, wrap_content, unread_count, replies.drop_last());
        let step = draw_step(before.size, before.drawing, replies.last());
        law_commit_exactly_on_success(size, wrap_content, unread_count, replies.drop_last());
        let run = draw_run(size, wrap_content, unread_count, replies);
        assert(run.actions == before.actions + step.actions);
        if before.actions.contains(DrawAction::Commit) {
            let i = before.actions.index_of(DrawAction::Commit);
            assert(run.actions[i] == DrawAction::Commit);
        }
        if step.actions.contains(DrawAction::Commit) {
            let i = step.actions.index_of(DrawAction::Commit);
            assert(run.actions[before.actions.len() + i] == DrawAction::Commit);
        }
        if step.result == Some(Ok::<(), BackendErrorView>(())) {
            assert(step.actions[0] == DrawAction::Commit);
            assert(step.actions.contains(DrawAction::Commit));
        }
    }
}

/// A drawing that failed, or went well, does nothing more, whatever is
/// answered.
pub proof fn law_ended_drawing_does_nothing(
    size: (u32, u32),
    drawing: DrawModel,
    reply: DrawReplyView,
)
    requires
        drawing.phase == DrawPhase::Ended,
    ensures
        draw_step(size, drawing, reply) == (DrawStep {
            size,
            drawing,
            actions: seq![],
            result: None,
        }),
{
}

/// How far a drawing has come.
pub open spec fn progress(phase: DrawPhase) -> int {
    match phase {
        DrawPhase::Commands => 0,
        DrawPhase::Render => 1,
        DrawPhase::Buffer => 2,
        DrawPhase::Image => 3,
        DrawPhase::Context => 4,
        DrawPhase::Fill => 5,
        DrawPhase::Paint => 6,
        DrawPhase::Measure => 7,
        DrawPhase::Attach => 8,
        DrawPhase::Ended => 9,
    }
}

/// An answer takes a drawing further, or it does nothing at all: a drawing
/// ends after nine answers at most that fit.
pub proof fn law_drawing_advances(size: (u32, u32), drawing: DrawModel, reply: DrawReplyView)
    ensures
        ({
            let step = draw_step(size, drawing, reply);
            ||| progress(step.drawing.phase) > progress(drawing.phase)
            ||| step == (DrawStep { size, drawing, actions: seq![], result: None })
        }),
{
}

/// A failure ends the drawing at once: nothing more is done, the size stays,
/// and the failure is reported in the words that its step calls for.
pub proof fn law_failure_ends_the_drawing(
    size: (u32, u32),
    drawing: DrawModel,
    error: BackendErrorView,
    text: Seq<char>,
)
    ensures
        ({
            let failed = draw_step(size, drawing, DrawReplyView::Failed(error));
            drawing.phase == DrawPhase::Commands || drawing.phase == DrawPhase::Render ==> {
                &&& failed.result == Some(Err::<(), BackendErrorView>(error))
                &&& failed.actions.len() == 0
                &&& failed.size == size
            }
        }),
        ({
            let refused = draw_step(size, drawing, DrawReplyView::Refused(text));
            2 <= progress(drawing.phase) <= 6 || drawing.phase == DrawPhase::Attach ==> {
                &&& refused.result == Some(
                    Err::<(), BackendErrorView>(
                        match drawing.phase {
                            DrawPhase::Buffer => BackendErrorView::Wayland(text),
                            DrawPhase::Attach => BackendErrorView::Wayland(ATTACH_ERROR@ + text),
                            _ => BackendErrorView::Cairo(text),
                        },
                    ),
                )
                &&& refused.actions.len() == 0
                &&& refused.size == size
            }
        }),
{
}

/// A drawing changes the size of a window only where the window takes the size
/// of its text, and then to no less than one pixel each way.
pub proof fn law_drawing_and_size(
    size: (u32, u32),
    wrap_content: bool,
    unread_count: usize,
    replies: Seq<DrawReplyView>,
)
    ensures
        ({
            let run = draw_run(size, wrap_content, unread_count, replies);
            &&& run.drawing.wrap_content == wrap_content
            &&& !wrap_content ==> run.size == size && run.drawing.phase != DrawPhase::Measure
            &&& run.size == size || (run.size.0 >= 1 && run.size.1 >= 1)
        }),
    decreases replies.len(),
{
    reveal(draw_run);
    if replies.len() > 0 {
        law_drawing_and_size(size, wrap_content, unread_count, replies.drop_last());
    }
}

/// Whether an action speaks of an image of the given size, if of any.
pub open spec fn agrees(action: DrawAction, width: u32, height: u32) -> bool {
    match action {
        DrawAction::CreateBuffer { width: w, height: h, .. } => w == as_signed(width) && h
            == as_signed(height),
        DrawAction::CreateImage { width: w, height: h, .. } => w == as_signed(width) && h
            == as_signed(height),
        DrawAction::Damage { x, y, width: w, height: h } => x == 0 && y == 0 && w == as_signed(
            width,
        ) && h == as_signed(height),
        _ => true,
    }
}

/// The buffer, the image and the rectangle that is declared as changed have
/// one size: the one that the window had when the drawing began, but no less
/// than one pixel each way.
pub proof fn law_one_size_for_buffer_image_and_damage(
    size: (u32, u32),
    wrap_content: bool,
    unread_count: usize,
    replies: Seq<DrawReplyView>,
)
    ensures
        ({
            let run = draw_run(size, wrap_content, unread_count, replies);
            forall|i: int|
                0 <= i < run.actions.len() ==> agrees(
                    #[trigger] run.actions[i],
                    at_least_one(size.0 as int) as u32,
                    at_least_one(size.1 as int) as u32,
                )
        }),
{
    lemma_one_size(size, wrap_content, unread_count, replies);
}

/// See [`law_one_size_for_buffer_image_and_damage`].
proof fn lemma_one_size(
    size: (u32, u32),
    wrap_content: bool,
    unread_count: usize,
    replies: Seq<DrawReplyView>,
)
    ensures
        ({
            let run = draw_run(size, wrap_content, unread_count, replies);
            let width = at_least_one(size.0 as int) as u32;
            let height = at_least_one(size.1 as int) as u32;
            &&& progress(run.drawing.phase) < 8 ==> run.size == size
            &&& 2 <= progress(run.drawing.phase) <= 8 ==> run.drawing.width == width
                && run.drawing.height == height
            &&& forall|i: int|
                0 <= i < run.actions.len() ==> agrees(#[trigger] run.actions[i], width, height)
        }),
    decreases replies.len(),
{
    reveal(draw_run);
    if replies.len() > 0 {
        let before = draw_run(size, wrap_content, unread_count, replies.drop_last());
        let step = draw_step(before.size, before.drawing, replies.last());
        lemma_one_size(size, wrap_content, unread_count, replies.drop_last());
        let run = draw_run(size, wrap_content, unread_count, replies);
        let width = at_least_one(size.0 as int) as u32;
        let height = at_least_one(size.1 as int) as u32;
        assert forall|i: int| 0 <= i < run.actions.len() implies agrees(
            #[trigger] run.actions[i],
            width,
            height,
        ) by {
            if i < before.actions.len() {
                assert(run.actions[i] == before.actions[i]);
            } else {
                assert(run.actions[i] == step.actions[i - before.actions.len()]);
            }
        }
    }
}

/// The message that a drawing lays out is the one that was answered to its
/// request to render, and it stays so to the end.
pub proof fn law_drawn_message_is_the_rendered_one(
    size: (u32, u32),
    wrap_content: bool,
    unread_count: usize,
    replies: Seq<DrawReplyView>,
)
    requires
        draw_run(size, wrap_content, unread_count, replies).actions.contains(
            DrawAction::SetMarkup,
        ),
    ensures
        rendered_at(
            size,
            wrap_content,
            unread_count,
            replies,
            draw_run(size, wrap_content, unread_count, replies).drawing.message,
        ),
{
    lemma_rendered(size, wrap_content, unread_count, replies);
}

/// Somewhere among the answers, the message was given to the drawing that
/// waited for it.
pub open spec fn rendered_at(
    size: (u32, u32),
    wrap_content: bool,
    unread_count: usize,
    replies: Seq<DrawReplyView>,
    message: Seq<char>,
) -> bool {
    exists|k: int|
        0 <= k < replies.len() && #[trigger] replies[k] == DrawReplyView::Message(message)
            && draw_run(size, wrap_content, unread_count, replies.take(k)).drawing.phase
            == DrawPhase::Render
}

/// See [`rendered_at`]: a later answer changes nothing of it.
proof fn lemma_rendered_before(
    size: (u32, u32),
    wrap_content: bool,
    unread_count: usize,
    replies: Seq<DrawReplyView>,
    reply: DrawReplyView,
    message: Seq<char>,
)
    requires
        rendered_at(size, wrap_content, unread_count, replies, message),
    ensures
        rendered_at(size, wrap_content, unread_count, replies.push(reply), message),
{
    let k = choose|k: int|
        0 <= k < replies.len() && #[trigger] replies[k] == DrawReplyView::Message(message)
            && draw_run(size, wrap_content, unread_count, replies.take(k)).drawing.phase
            == DrawPhase::Render;
    let all = replies.push(reply);
    assert(all.take(k) == replies.take(k));
    assert(all[k] == DrawReplyView::Message(message));
}

/// A turn takes a message only where it was asked to render one, and lays it
/// out only later.
#[verifier::spinoff_prover]
proof fn lemma_message_step(size: (u32, u32), drawing: DrawModel, reply: DrawReplyView)
    ensures
        ({
            let step = draw_step(size, drawing, reply);
            let underway = 2 <= progress(drawing.phase) <= 8;
            if drawing.phase == DrawPhase::Render && reply is Message {
                step.drawing.message == reply->Message_0
            } else {
                &&& step.drawing.message == drawing.message
                &&& 2 <= progress(step.drawing.phase) <= 8 ==> underway
                &&& step.actions.contains(DrawAction::SetMarkup) ==> underway
            }
        }),
{
    let step = draw_step(size, drawing, reply);
    if drawing.phase == DrawPhase::Commands || drawing.phase == DrawPhase::Render
        || drawing.phase == DrawPhase::Ended {
        assert(forall|i: int| 0 <= i < step.actions.len() ==> step.actions[i] !is SetMarkup);
    }
}

/// See [`law_drawn_message_is_the_rendered_one`].
#[verifier::spinoff_prover]
proof fn lemma_rendered(
    size: (u32, u32),
    wrap_content: bool,
    unread_count: usize,
    replies: Seq<DrawReplyView>,
)
    ensures
        ({
            let run = draw_run(size, wrap_content, unread_count, replies);
            2 <= progress(run.drawing.phase) <= 8 || run.actions.contains(DrawAction::SetMarkup)
                ==> rendered_at(size, wrap_content, unread_count, replies, run.drawing.message)
        }),
    decreases replies.len(),
{
    if replies.len() == 0 {
        lemma_draw_run_start(size, wrap_content, unread_count);
        assert(replies == Seq::<DrawReplyView>::empty());
    } else {
        let earlier = replies.drop_last();
        let reply = replies.last();
        assert(earlier.push(reply) == replies);
        let before = draw_run(size, wrap_content, unread_count, earlier);
        let step = draw_step(before.size, before.drawing, reply);
        let run = draw_run(size, wrap_content, unread_count, replies);
        lemma_rendered(size, wrap_content, unread_count, earlier);
        lemma_draw_run_push(size, wrap_content, unread_count, earlier, reply);
        lemma_message_step(before.size, before.drawing, reply);
        if before.drawing.phase == DrawPhase::Render && reply is Message {
            assert(replies.take(replies.len() - 1) == earlier);
            assert(replies[replies.len() - 1] == DrawReplyView::Message(run.drawing.message));
        } else {
            if run.actions.contains(DrawAction::SetMarkup) {
                let i = run.actions.index_of(DrawAction::SetMarkup);
                assert(run.actions[i] == DrawAction::SetMarkup);
                if i < before.actions.len() {
                    assert(before.actions[i] == DrawAction::SetMarkup);
                } else {
                    assert(step.actions[i - before.actions.len()] == DrawAction::SetMarkup);
                }
            }
            if rendered_at(size, wrap_content, unread_count, earlier, before.drawing.message) {
                lemma_rendered_before(
                    size,
                    wrap_content,
                    unread_count,
                    earlier,
                    reply,
                    before.drawing.message,
                );
            }
        }
    }
}

/// What is rendered for a drawing and what is rendered outside the event loop
/// are one message: the same notification, text and count, on engines that
/// hold the same templates and filters, whatever has become of the window's
/// runtime.
pub proof fn law_one_message_inside_and_outside_the_loop<H: Host>(
    window: WaylandWindow<H>,
    event_sender: H::EventSender,
    state: WaylandState<H>,
    made_with: H::Runtime,
    runtime: H::Runtime,
    notification: H::Notification,
    urgency_text: Option<String>,
    unread_count: usize,
    drawn: MessageJob<'_, H>,
    asked: MessageJob<'_, H>,
)
    requires
        window.made_of(event_sender, state, made_with),
        drawn.asks(state.window.template, notification, urgency_text, unread_count),
        asked.asks(
            *(WaylandWindow { runtime, ..window }).template,
            notification,
            urgency_text,
            unread_count,
        ),
    ensures
        drawn.notification == asked.notification,
        drawn.urgency_text == asked.urgency_text,
        drawn.unread_count == asked.unread_count,
        tera_templates(*drawn.template) == tera_templates(*asked.template),
        tera_filters(*drawn.template) == tera_filters(*asked.template),
{
}

// Message template.

/// All of a text is white space.
pub open spec fn is_white(text: Seq<char>) -> bool {
    forall|i: int| 0 <= i < text.len() ==> is_white_space(#[trigger] text[i])
}

/// White space round a text is dropped, and nothing else with it.
pub proof fn law_white_space_around_is_trimmed(
    before: Seq<char>,
    text: Seq<char>,
    after: Seq<char>,
)
    requires
        is_white(before),
        is_white(after),
    ensures
        trimmed(before + text + after) == trimmed(text),
    decreases before.len() + text.len() + after.len(),
{
    let whole = before + text + after;
    if before.len() > 0 {
        assert(whole.drop_first() == before.drop_first() + text + after);
        law_white_space_around_is_trimmed(before.drop_first(), text, after);
    } else if text.len() > 0 && is_white_space(text.first()) {
        assert(whole.drop_first() == before + text.drop_first() + after);
        law_white_space_around_is_trimmed(before, text.drop_first(), after);
    } else if text.len() == 0 && after.len() > 0 {
        assert(whole.drop_first() == before + text + after.drop_first());
        law_white_space_around_is_trimmed(before, text, after.drop_first());
    } else if after.len() > 0 {
        assert(whole.drop_last() == before + text + after.drop_last());
        law_white_space_around_is_trimmed(before, text, after.drop_last());
    } else {
        assert(whole == text);
    }
}

/// A text without braces hands no list to a test, whatever else it holds.
pub proof fn law_plain_text_tests_no_list(content: Seq<char>)
    requires
        !content.contains('{'),
    ensures
        !list_in_test(content),
        scan(content).mode == ScanMode::Text,
        scan(content).last != '{',
    decreases content.len(),
{
    if content.len() > 0 {
        assert forall|i: int| 0 <= i < content.drop_last().len() implies content.drop_last()[i]
            != '{' by {
            assert(content[i] != '{');
        }
        law_plain_text_tests_no_list(content.drop_last());
        assert(content[content.len() - 1] != '{');
    }
}

/// Text that comes later does not undo that a list was found.
pub proof fn law_tested_list_stays_found(content: Seq<char>, more: Seq<char>)
    requires
        scan(content).found,
    ensures
        scan(content + more).found,
    decreases more.len(),
{
    if more.len() == 0 {
        assert(content + more == content);
    } else {
        law_tested_list_stays_found(content, more.drop_last());
        assert((content + more).drop_last() == content + more.drop_last());
    }
}

/// White space round a message template makes no difference: its preparation
/// can go in the same ways, and a window renders the one exactly where it
/// renders the other.
pub proof fn law_white_space_around_a_template(
    window: WindowRenderState,
    outcome: Result<WindowRenderState, BackendError>,
    before: Seq<char>,
    template_raw: Seq<char>,
    after: Seq<char>,
    font: Seq<char>,
)
    requires
        is_white(before),
        is_white(after),
    ensures
        window.renders(before + template_raw + after, font) <==> window.renders(
            template_raw,
            font,
        ),
        WindowRenderState::prepares(before + template_raw + after, font, outcome)
            <==> WindowRenderState::prepares(template_raw, font, outcome),
{
    law_white_space_around_is_trimmed(before, template_raw, after);
}

/// A trimmed text has no white space at its ends, and trimming it again
/// changes nothing.
pub proof fn law_trimmed_has_clean_ends(text: Seq<char>)
    ensures
        trimmed(text).len() > 0 ==> !is_white_space(trimmed(text).first()) && !is_white_space(
            trimmed(text).last(),
        ),
        trimmed(trimmed(text)) == trimmed(text),
    decreases text.len(),
{
    if text.len() > 0 && is_white_space(text.first()) {
        law_trimmed_has_clean_ends(text.drop_first());
    } else if text.len() > 0 && is_white_space(text.last()) {
        law_trimmed_has_clean_ends(text.drop_last());
    }
}

} // verus!
