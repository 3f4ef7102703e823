//! What each operation does, in plain terms.
//!
//! The laws here speak of the numbers, the fields and the requests themselves,
//! whatever the names under which the other modules speak of them.

use vstd::prelude::*;

use crate::backend::{Delivery, MessageJob, Wayland, WaylandWindow};
use crate::config::{Geometry, GlobalConfig};
use crate::draw::{
    as_signed, at_least_one, draw_step, fresh_drawing, present_script, result_view, row_bytes,
    text_script, DrawAction, DrawModel, DrawPhase, DrawReply, DrawReplyView, DrawStep, DrawTurn,
    Drawing, Ink,
};
use crate::error::{BackendError, BackendErrorView};
use crate::events::{loop_context, loop_script, next_phase, LoopAction, LoopPhase};
use crate::host::Host;
use crate::laws::{draw_run, setup_run};
use crate::setup::{
    answer_view, ask, is_fresh, layer_script, place_script, refusal_context, refuse, setup_step,
    template_step, Edges, KeyboardInteractivity, Layer, SetupAction, SetupPhase, SetupStep,
    SetupTurn, WindowSetup,
};
use crate::state::{
    press_actions, press_script, Capability, ChannelEvent, DrawRequest, PointerEvent,
    PointerEventKind, PressAction, WaylandEvent, WaylandState, WindowAction,
};
use crate::template::{
    error_source, is_white_space, refused_template, tera_filters, tera_refuses, tera_templates,
    trimmed, WindowRenderState,
};

verus! {

// Events of the daemon and of the compositor.

/// Hiding asks for one pixel and commits that, and asks for nothing else: no
/// later request undoes it, whatever the state.
pub proof fn law_hidden_window_stays_hidden<H: Host>(state: WaylandState<H>)
    ensures
        state.event_actions(WaylandEvent::Hide).len() == 2,
        state.event_actions(WaylandEvent::Hide)[0] == (WindowAction::SetSize {
            width: 1,
            height: 1,
        }),
        state.event_actions(WaylandEvent::Hide)[1] == WindowAction::Commit,
        forall|i: int|
            0 <= i < state.event_actions(WaylandEvent::Hide).len() ==> {
                let action = #[trigger] state.event_actions(WaylandEvent::Hide)[i];
                &&& action matches WindowAction::SetSize { width, height } ==> width == 1 && height
                    == 1
                &&& action != WindowAction::QueryUnread
                &&& action != WindowAction::CommitSurface
            },
{
}

/// Showing asks for the window's own size and commits it; the store is asked
/// exactly where the compositor has configured the window and there is a store.
pub proof fn law_shown_window_has_its_size<H: Host>(state: WaylandState<H>)
    ensures
        state.event_actions(WaylandEvent::Show)[0] == (WindowAction::SetSize {
            width: state.width,
            height: state.height,
        }),
        state.event_actions(WaylandEvent::Show)[1] == WindowAction::Commit,
        state.configured && state.manager is Some ==> state.event_actions(WaylandEvent::Show).len()
            == 3 && state.event_actions(WaylandEvent::Show)[2] == WindowAction::QueryUnread,
        !(state.configured && state.manager is Some) ==> state.event_actions(
            WaylandEvent::Show,
        ).len() == 2,
        state.drawable() <==> state.configured && state.manager is Some,
{
}

/// Which requests follow an event is decided by the size, by whether the window
/// was configured and by whether there is a store, and by nothing else.
pub proof fn law_events_look_at_nothing_else<H: Host>(
    first: WaylandState<H>,
    second: WaylandState<H>,
    event: WaylandEvent,
)
    requires
        first.width == second.width,
        first.height == second.height,
        first.configured == second.configured,
        first.manager is Some <==> second.manager is Some,
    ensures
        first.event_actions(event) == second.event_actions(event),
        first.channel_actions(ChannelEvent::Msg(event)) == first.event_actions(event),
        first.channel_actions(ChannelEvent::Closed).len() == 0,
{
}

/// After every configure event, whatever it brings, the window is configured
/// and past its first such event; a dimension other than zero is taken over and
/// the other one kept; and all the rest is as it was.
pub proof fn law_configured_by_every_configure_event<H: Host>(
    state: WaylandState<H>,
    width: u32,
    height: u32,
)
    ensures
        ({
            let after = state.configured_to(width, height);
            &&& after.configured
            &&& !after.first_configure
            &&& width != 0 ==> after.width == width
            &&& width == 0 ==> after.width == state.width
            &&& height != 0 ==> after.height == height
            &&& height == 0 ==> after.height == state.height
            &&& after.pointer == state.pointer
            &&& after.pending_draw == state.pending_draw
            &&& after.window == state.window
            &&& after.on_press == state.on_press
            &&& after.manager == state.manager
            &&& after.config == state.config
        }),
{
}

/// A window that has its store asks it for a notification at every show that
/// comes after a configure event, and sets the size that the event brought.
pub proof fn law_show_after_configure_draws<H: Host>(
    state: WaylandState<H>,
    width: u32,
    height: u32,
)
    requires
        state.manager is Some,
    ensures
        ({
            let actions = state.configured_to(width, height).event_actions(WaylandEvent::Show);
            &&& actions.len() == 3
            &&& actions[2] == WindowAction::QueryUnread
            &&& actions[0] matches WindowAction::SetSize { width: w, height: h } && (width > 0
                ==> w == width) && (height > 0 ==> h == height)
        }),
{
}

/// Queueing a drawing changes what waits, and nothing else.
pub proof fn law_queue_changes_only_what_waits<H: Host>(
    state: WaylandState<H>,
    pending: Option<DrawRequest<H>>,
)
    ensures
        ({
            let after = state.with_pending(pending);
            &&& after.pending_draw == pending
            &&& after.first_configure == state.first_configure
            &&& after.configured == state.configured
            &&& after.width == state.width
            &&& after.height == state.height
            &&& after.pointer == state.pointer
            &&& after.window == state.window
            &&& after.on_press == state.on_press
            &&& after.manager == state.manager
            &&& after.config == state.config
        }),
{
}

/// A frame starts a drawing exactly where one waits, and it is that one.
pub proof fn law_frame_starts_what_waits<H: Host>(
    state: WaylandState<H>,
    outcome: Option<Result<(Drawing<H>, DrawTurn), BackendError>>,
)
    ensures
        state.starts_pending(outcome) ==> (outcome is Some <==> state.pending_draw is Some),
        state.starts_pending(outcome) && outcome is Some ==> state.starts_drawing(
            state.pending_draw->Some_0,
            outcome->Some_0,
        ),
        state.pending_draw is None && outcome is None ==> state.starts_pending(outcome),
        state.pending_draw is Some && outcome is Some && state.starts_drawing(
            state.pending_draw->Some_0,
            outcome->Some_0,
        ) ==> state.starts_pending(outcome),
{
}

/// What is kept of every window.
pub proof fn law_kept_of_every_window<H: Host>(state: WaylandState<H>)
    ensures
        state.wf() <==> {
            &&& state.configured <==> !state.first_configure
            &&& state.manager is Some <==> state.config is Some
            &&& state.manager is Some <==> state.on_press is Some
            &&& state.pending_draw is Some ==> state.configured && state.manager is Some
        },
{
}

// Pointer.

/// The pointer is asked for exactly where a pointer appears and there is none,
/// and taking or losing it changes nothing else.
pub proof fn law_pointer_comes_and_goes<H: Host>(
    state: WaylandState<H>,
    capability: Capability,
    pointer: Option<H::Pointer>,
)
    ensures
        state.asks_pointer(capability) <==> capability == Capability::Pointer && state.pointer
            is None,
        ({
            let after = state.with_pointer(pointer);
            &&& after.pointer == pointer
            &&& after.first_configure == state.first_configure
            &&& after.configured == state.configured
            &&& after.width == state.width
            &&& after.height == state.height
            &&& after.pending_draw == state.pending_draw
            &&& after.window == state.window
            &&& after.on_press == state.on_press
            &&& after.manager == state.manager
            &&& after.config == state.config
        }),
{
}

/// A press on the window reads the last unread notification, marks it as read
/// and calls the handler, behind what went before; every other event, and every
/// event elsewhere, adds nothing.
pub proof fn law_press_dismisses_the_notification(
    events: Seq<PointerEvent>,
    event: PointerEvent,
    surface: u32,
)
    ensures
        press_actions(seq![], surface).len() == 0,
        event.kind == PointerEventKind::Press && event.surface == surface ==> press_actions(
            events.push(event),
            surface,
        ) == press_actions(events, surface).push(PressAction::GetLastUnread).push(
            PressAction::MarkLastAsRead,
        ).push(PressAction::OnPress),
        !(event.kind == PointerEventKind::Press && event.surface == surface) ==> press_actions(
            events.push(event),
            surface,
        ) == press_actions(events, surface),
        press_script() == seq![
            PressAction::GetLastUnread,
            PressAction::MarkLastAsRead,
            PressAction::OnPress,
        ],
{
    assert(events.push(event).drop_last() == events);
}

// Drawing: numbers.

/// How a number of 32 bits is read as a signed one, and that no two numbers are
/// read alike.
pub proof fn law_signed_reading(number: u32, other: u32)
    ensures
        number <= 0x7fff_ffff ==> as_signed(number) == number,
        number > 0x7fff_ffff ==> as_signed(number) == number - 0x1_0000_0000,
        as_signed(number) == as_signed(other) ==> number == other,
{
}

/// A dimension that is less than one counts as one; every other stays.
pub proof fn law_dimensions_are_positive(number: int)
    ensures
        number >= 1 ==> at_least_one(number) == number,
        number < 1 ==> at_least_one(number) == 1,
{
}

/// A pixel has four bytes.
pub proof fn law_pixels_have_four_bytes(width: u32)
    ensures
        row_bytes(width) == width + width + width + width,
{
}

// Drawing: one turn.

/// Nothing but the phase changes, and nothing has gone wrong.
pub open spec fn moves_on(
    size: (u32, u32),
    drawing: DrawModel,
    step: DrawStep,
    phase: DrawPhase,
) -> bool {
    &&& step.size.0 == size.0 && step.size.1 == size.1
    &&& step.result is None
    &&& step.drawing.phase == phase
    &&& step.drawing.message == drawing.message
    &&& step.drawing.width == drawing.width
    &&& step.drawing.height == drawing.height
    &&& step.drawing.stride == drawing.stride
    &&& step.drawing.wrap_content == drawing.wrap_content
    &&& step.drawing.unread_count == drawing.unread_count
}

/// The drawing is over with an error, and nothing else happens.
pub open spec fn fails_with(
    size: (u32, u32),
    step: DrawStep,
    error: BackendErrorView,
) -> bool {
    &&& step.size.0 == size.0 && step.size.1 == size.1
    &&& step.result == Some(Err::<(), BackendErrorView>(error))
    &&& step.drawing.phase == DrawPhase::Ended
    &&& step.actions.len() == 0
}

/// Once the commands were run, the message is rendered with the number of
/// unread notifications that came with the request.
pub proof fn law_message_follows_the_commands(size: (u32, u32), drawing: DrawModel)
    requires
        drawing.phase == DrawPhase::Commands,
    ensures
        ({
            let step = draw_step(size, drawing, DrawReplyView::Done);
            &&& moves_on(size, drawing, step, DrawPhase::Render)
            &&& step.actions.len() == 1
            &&& step.actions[0] == DrawAction::RenderMessage { unread_count: drawing.unread_count }
        }),
{
}

/// The buffer that follows a rendered message has the window's size, in pixels
/// of four bytes: for every window whose rows can be counted, the stride is
/// four times the width, and an empty dimension counts as one pixel.
pub proof fn law_buffer_fits_the_window(size: (u32, u32), drawing: DrawModel, message: Seq<char>)
    requires
        drawing.phase == DrawPhase::Render,
    ensures
        ({
            let step = draw_step(size, drawing, DrawReplyView::Message(message));
            let w: int = if size.0 == 0 { 1 } else { size.0 as int };
            let h: int = if size.1 == 0 { 1 } else { size.1 as int };
            &&& step.size == size
            &&& step.result is None
            &&& step.drawing.phase == DrawPhase::Buffer
            &&& step.drawing.message == message
            &&& step.drawing.wrap_content == drawing.wrap_content
            &&& step.drawing.unread_count == drawing.unread_count
            &&& step.drawing.width == w
            &&& step.drawing.height == h
            &&& 4 * w <= 0x7fff_ffff ==> step.drawing.stride == 4 * w
            &&& 0x7fff_ffff < 4 * w <= 0xffff_ffff ==> step.drawing.stride == 4 * w
                - 0x1_0000_0000
            &&& step.actions.len() == 1
            &&& step.actions[0] matches DrawAction::CreateBuffer { width, height, stride } && {
                &&& w <= 0x7fff_ffff ==> width == w
                &&& w > 0x7fff_ffff ==> width == w - 0x1_0000_0000
                &&& h <= 0x7fff_ffff ==> height == h
                &&& h > 0x7fff_ffff ==> height == h - 0x1_0000_0000
                &&& stride == step.drawing.stride
            }
        }),
{
}

/// The image has the buffer's size and stride.
pub proof fn law_image_fits_the_buffer(size: (u32, u32), drawing: DrawModel)
    requires
        drawing.phase == DrawPhase::Buffer,
    ensures
        ({
            let step = draw_step(size, drawing, DrawReplyView::Done);
            &&& moves_on(size, drawing, step, DrawPhase::Image)
            &&& step.actions.len() == 1
            &&& step.actions[0] matches DrawAction::CreateImage { width, height, stride } && {
                &&& drawing.width <= 0x7fff_ffff ==> width == drawing.width
                &&& drawing.width > 0x7fff_ffff ==> width == drawing.width - 0x1_0000_0000
                &&& drawing.height <= 0x7fff_ffff ==> height == drawing.height
                &&& drawing.height > 0x7fff_ffff ==> height == drawing.height - 0x1_0000_0000
                &&& stride == drawing.stride
            }
        }),
{
}

/// The background is painted first, in the background's color.
pub proof fn law_background_comes_first(size: (u32, u32), drawing: DrawModel)
    ensures
        ({
            let step = draw_step(size, drawing, DrawReplyView::Done);
            &&& drawing.phase == DrawPhase::Image ==> moves_on(
                size,
                drawing,
                step,
                DrawPhase::Context,
            ) && step.actions == seq![DrawAction::CreateContext]
            &&& drawing.phase == DrawPhase::Context ==> moves_on(
                size,
                drawing,
                step,
                DrawPhase::Fill,
            ) && step.actions == seq![
                DrawAction::CreateLayout,
                DrawAction::SetSource { ink: Ink::Background },
                DrawAction::Fill,
            ]
            &&& drawing.phase == DrawPhase::Fill ==> moves_on(
                size,
                drawing,
                step,
                DrawPhase::Paint,
            ) && step.actions == seq![DrawAction::Paint]
        }),
{
}

/// What ends every drawing: the text is shown, the whole image is declared as
/// changed, the next frame is asked for and the buffer attached.
pub open spec fn presents(drawing: DrawModel, actions: Seq<DrawAction>) -> bool {
    &&& actions.len() == 4
    &&& actions[0] == DrawAction::ShowLayout
    &&& actions[1] matches DrawAction::Damage { x, y, width, height } && {
        &&& x == 0
        &&& y == 0
        &&& drawing.width <= 0x7fff_ffff ==> width == drawing.width
        &&& drawing.width > 0x7fff_ffff ==> width == drawing.width - 0x1_0000_0000
        &&& drawing.height <= 0x7fff_ffff ==> height == drawing.height
        &&& drawing.height > 0x7fff_ffff ==> height == drawing.height - 0x1_0000_0000
    }
    &&& actions[2] == DrawAction::RequestFrame
    &&& actions[3] == DrawAction::AttachBuffer
}

/// The message is laid out in the foreground's color from the upper left
/// corner; it is measured exactly where the window takes its size.
pub proof fn law_message_is_laid_out(size: (u32, u32), drawing: DrawModel)
    requires
        drawing.phase == DrawPhase::Paint,
    ensures
        ({
            let step = draw_step(size, drawing, DrawReplyView::Done);
            &&& step.actions.take(3) == seq![
                DrawAction::SetSource { ink: Ink::Foreground },
                DrawAction::MoveTo { x: 0, y: 0 },
                DrawAction::SetMarkup,
            ]
            &&& drawing.wrap_content ==> moves_on(size, drawing, step, DrawPhase::Measure)
                && step.actions.skip(3) == seq![DrawAction::Measure]
            &&& !drawing.wrap_content ==> moves_on(size, drawing, step, DrawPhase::Attach)
                && presents(drawing, step.actions.skip(3))
        }),
{
    let step = draw_step(size, drawing, DrawReplyView::Done);
    assert(step.actions.take(3) == seq![
        DrawAction::SetSource { ink: Ink::Foreground },
        DrawAction::MoveTo { x: 0, y: 0 },
        DrawAction::SetMarkup,
    ]);
    if drawing.wrap_content {
        assert(step.actions.skip(3) == seq![DrawAction::Measure]);
    } else {
        assert(step.actions.skip(3) == present_script(drawing));
    }
}

/// The window takes the measured size, but no less than one pixel each way,
/// whatever its size was, and asks the compositor for it; the image keeps the
/// size that it was made with.
pub proof fn law_measured_size_is_taken(
    size: (u32, u32),
    drawing: DrawModel,
    width: i32,
    height: i32,
)
    requires
        drawing.phase == DrawPhase::Measure,
    ensures
        ({
            let step = draw_step(size, drawing, DrawReplyView::Measured { width, height });
            &&& width >= 1 ==> step.size.0 == width
            &&& width < 1 ==> step.size.0 == 1
            &&& height >= 1 ==> step.size.1 == height
            &&& height < 1 ==> step.size.1 == 1
            &&& moves_on(step.size, drawing, step, DrawPhase::Attach)
            &&& step.actions.len() == 5
            &&& step.actions[0] == DrawAction::SetSize(step.size.0, step.size.1)
            &&& presents(drawing, step.actions.skip(1))
        }),
{
    let step = draw_step(size, drawing, DrawReplyView::Measured { width, height });
    assert(step.actions.skip(1) == present_script(drawing));
}

/// Once the buffer is attached the surface is committed, and that is all.
pub proof fn law_attached_buffer_is_committed(size: (u32, u32), drawing: DrawModel)
    requires
        drawing.phase == DrawPhase::Attach,
    ensures
        ({
            let step = draw_step(size, drawing, DrawReplyView::Done);
            &&& step.size == size
            &&& step.actions == seq![DrawAction::Commit]
            &&& step.result == Some(Ok::<(), BackendErrorView>(()))
            &&& step.drawing.phase == DrawPhase::Ended
        }),
{
}

/// How a drawing fails: in the words of the one who failed.
pub proof fn law_drawing_fails_in_the_words_of_the_one_who_failed(
    size: (u32, u32),
    drawing: DrawModel,
    error: BackendErrorView,
    text: Seq<char>,
)
    ensures
        ({
            let failed = draw_step(size, drawing, DrawReplyView::Failed(error));
            let refused = draw_step(size, drawing, DrawReplyView::Refused(text));
            match drawing.phase {
                DrawPhase::Commands => fails_with(size, failed, error),
                DrawPhase::Render => fails_with(size, failed, error),
                DrawPhase::Buffer => fails_with(size, refused, BackendErrorView::Wayland(text)),
                DrawPhase::Image => fails_with(size, refused, BackendErrorView::Cairo(text)),
                DrawPhase::Context => fails_with(size, refused, BackendErrorView::Cairo(text)),
                DrawPhase::Fill => fails_with(size, refused, BackendErrorView::Cairo(text)),
                DrawPhase::Paint => fails_with(size, refused, BackendErrorView::Cairo(text)),
                DrawPhase::Attach => fails_with(
                    size,
                    refused,
                    BackendErrorView::Wayland("buffer attach error: "@ + text),
                ),
                DrawPhase::Measure => true,
                DrawPhase::Ended => true,
            }
        }),
{
}

/// An answer that does not fit the action that waits for it does nothing at
/// all.
pub proof fn law_unfit_answer_does_nothing(
    size: (u32, u32),
    drawing: DrawModel,
    reply: DrawReplyView,
)
    requires
        match drawing.phase {
            DrawPhase::Commands => reply !is Done && reply !is Failed,
            DrawPhase::Render => reply !is Message && reply !is Failed,
            DrawPhase::Measure => reply !is Measured,
            DrawPhase::Ended => true,
            _ => reply !is Done && reply !is Refused,
        },
    ensures
        moves_on(size, drawing, draw_step(size, drawing, reply), drawing.phase),
        draw_step(size, drawing, reply).actions.len() == 0,
{
}

/// The scripts of a drawing.
pub proof fn law_scripts_of_a_drawing(drawing: DrawModel)
    ensures
        presents(drawing, present_script(drawing)),
        text_script() == seq![
            DrawAction::SetSource { ink: Ink::Foreground },
            DrawAction::MoveTo { x: 0, y: 0 },
            DrawAction::SetMarkup,
        ],
{
}

// Drawing: the window.

/// After a turn, the window's own size is the measured one where the text was
/// measured, and what it was in every other case; the rest of the window stays.
pub proof fn law_window_takes_the_measured_size<H: Host>(
    before: WaylandState<H>,
    drawing: DrawModel,
    reply: DrawReplyView,
)
    ensures
        ({
            let after = before.resized(draw_step(before.size(), drawing, reply).size);
            &&& drawing.phase == DrawPhase::Measure && reply is Measured ==> {
                let width = reply->Measured_width;
                let height = reply->Measured_height;
                &&& width >= 1 ==> after.width == width
                &&& width < 1 ==> after.width == 1
                &&& height >= 1 ==> after.height == height
                &&& height < 1 ==> after.height == 1
            }
            &&& !(drawing.phase == DrawPhase::Measure && reply is Measured) ==> after.width
                == before.width && after.height == before.height
            &&& after.first_configure == before.first_configure
            &&& after.configured == before.configured
            &&& after.pointer == before.pointer
            &&& after.pending_draw == before.pending_draw
            &&& after.window == before.window
            &&& after.on_press == before.on_press
            &&& after.manager == before.manager
            &&& after.config == before.config
        }),
{
}

/// A window that took the size of its text is shown again in that size.
pub proof fn law_measured_window_is_shown_in_that_size<H: Host>(
    before: WaylandState<H>,
    drawing: DrawModel,
    width: i32,
    height: i32,
)
    requires
        drawing.phase == DrawPhase::Measure,
        width >= 1,
        height >= 1,
    ensures
        ({
            let step = draw_step(
                before.size(),
                drawing,
                DrawReplyView::Measured { width, height },
            );
            before.resized(step.size).event_actions(WaylandEvent::Show)[0]
                == (WindowAction::SetSize { width: width as u32, height: height as u32 })
        }),
{
}

/// Reading and setting the size.
pub proof fn law_size_is_read_and_set<H: Host>(state: WaylandState<H>, width: u32, height: u32)
    ensures
        state.size().0 == state.width,
        state.size().1 == state.height,
        state.resized((width, height)).width == width,
        state.resized((width, height)).height == height,
        state.resized(state.size()) == state,
{
}

/// A drawing starts exactly where there is a configuration: with the request as
/// it is, the configuration's way with sizes, and the commands first.
pub proof fn law_drawing_starts_with_the_commands<H: Host>(
    state: WaylandState<H>,
    request: DrawRequest<H>,
    outcome: Result<(Drawing<H>, DrawTurn), BackendError>,
)
    requires
        state.starts_drawing(request, outcome),
    ensures
        outcome is Ok <==> state.config is Some,
        outcome matches Ok((drawing, turn)) ==> {
            &&& drawing.request == request
            &&& drawing.wrap_content == state.config->Some_0.global.wrap_content
            &&& drawing.phase == DrawPhase::Commands
            &&& drawing.message@.len() == 0
            &&& drawing.width == 0 && drawing.height == 0 && drawing.stride == 0
            &&& turn.actions@ == seq![DrawAction::RunCommands]
            &&& turn.result is None
        },
        outcome matches Err(error) ==> error@ == BackendErrorView::Init("missing config"@),
{
}

/// The models hold what they stand for.
pub proof fn law_models_of_a_drawing<H: Host>(
    drawing: Drawing<H>,
    reply: DrawReply,
    result: Option<Result<(), BackendError>>,
    wrap_content: bool,
    unread_count: usize,
)
    ensures
        drawing@.wrap_content == drawing.wrap_content,
        drawing@.unread_count == drawing.request.unread_count,
        drawing@.phase == drawing.phase,
        drawing@.message == drawing.message@,
        drawing@.width == drawing.width,
        drawing@.height == drawing.height,
        drawing@.stride == drawing.stride,
        reply is Done <==> reply@ is Done,
        reply is Message <==> reply@ is Message,
        reply is Message ==> reply@->Message_0 == reply->Message_0@,
        reply is Measured <==> reply@ is Measured,
        reply is Measured ==> reply@->Measured_width == reply->Measured_width
            && reply@->Measured_height == reply->Measured_height,
        reply is Failed <==> reply@ is Failed,
        reply is Failed ==> reply@->Failed_0 == reply->Failed_0@,
        reply is Refused <==> reply@ is Refused,
        reply is Refused ==> reply@->Refused_0 == reply->Refused_0@,
        result is None <==> result_view(result) is None,
        result matches Some(Ok(())) <==> result_view(result) matches Some(Ok(())),
        result matches Some(Err(error)) ==> result_view(result) == Some(
            Err::<(), BackendErrorView>(error@),
        ),
        fresh_drawing(wrap_content, unread_count).wrap_content == wrap_content,
        fresh_drawing(wrap_content, unread_count).unread_count == unread_count,
        fresh_drawing(wrap_content, unread_count).phase == DrawPhase::Commands,
        fresh_drawing(wrap_content, unread_count).message.len() == 0,
{
}

// Drawing: from its start.

/// In every drawing, however it goes, the buffer and the image have rows of
/// four bytes for each pixel of the window's width, as the window was when the
/// drawing began.
pub proof fn law_rows_hold_four_bytes_a_pixel(
    size: (u32, u32),
    wrap_content: bool,
    unread_count: usize,
    replies: Seq<DrawReplyView>,
)
    requires
        4 * size.0 <= 0x7fff_ffff,
    ensures
        ({
            let run = draw_run(size, wrap_content, unread_count, replies);
            let w: int = if size.0 == 0 { 1 } else { size.0 as int };
            forall|i: int|
                0 <= i < run.actions.len() ==> {
                    &&& #[trigger] run.actions[i] matches DrawAction::CreateBuffer {
                        width,
                        stride,
                        ..
                    } ==> width == w && stride == 4 * w
                    &&& run.actions[i] matches DrawAction::CreateImage { width, stride, .. }
                        ==> width == w && stride == 4 * w
                }
        }),
{
    lemma_rows(size, wrap_content, unread_count, replies);
}

/// See [`law_rows_hold_four_bytes_a_pixel`].
#[verifier::spinoff_prover]
proof fn lemma_rows(
    size: (u32, u32),
    wrap_content: bool,
    unread_count: usize,
    replies: Seq<DrawReplyView>,
)
    requires
        4 * size.0 <= 0x7fff_ffff,
    ensures
        ({
            let run = draw_run(size, wrap_content, unread_count, replies);
            let w: int = if size.0 == 0 { 1 } else { size.0 as int };
            &&& run.drawing.phase == DrawPhase::Commands || run.drawing.phase == DrawPhase::Render
                ==> run.size == size
            &&& run.drawing.phase == DrawPhase::Buffer ==> run.drawing.width == w
                && run.drawing.stride == 4 * w
            &&& forall|i: int|
                0 <= i < run.actions.len() ==> {
                    &&& #[trigger] run.actions[i] matches DrawAction::CreateBuffer {
                        width,
                        stride,
                        ..
                    } ==> width == w && stride == 4 * w
                    &&& run.actions[i] matches DrawAction::CreateImage { width, stride, .. }
                        ==> width == w && stride == 4 * w
                }
        }),
    decreases replies.len(),
{
    reveal(draw_run);
    if replies.len() > 0 {
        let before = draw_run(size, wrap_content, unread_count, replies.drop_last());
        let step = draw_step(before.size, before.drawing, replies.last());
        lemma_rows(size, wrap_content, unread_count, replies.drop_last());
        let run = draw_run(size, wrap_content, unread_count, replies);
        let w: int = if size.0 == 0 { 1 } else { size.0 as int };
        assert forall|i: int| 0 <= i < run.actions.len() implies {
            &&& #[trigger] run.actions[i] matches DrawAction::CreateBuffer { width, stride, .. }
                ==> width == w && stride == 4 * w
            &&& run.actions[i] matches DrawAction::CreateImage { width, stride, .. } ==> width == w
                && stride == 4 * w
        } by {
            if i < before.actions.len() {
                assert(run.actions[i] == before.actions[i]);
            } else {
                assert(run.actions[i] == step.actions[i - before.actions.len()]);
            }
        }
    }
}

// Creating the window.

/// However a creation goes, the window is put nowhere but where the geometry
/// says: the margins are its `y` from the top and its `x` from the left, its
/// size is the geometry's, and the memory holds one image of four bytes a pixel.
pub proof fn law_window_stands_at_its_place(
    geometry: Geometry,
    loaded: Result<(), BackendErrorView>,
    answers: Seq<Result<(), Seq<char>>>,
)
    requires
        geometry.width * geometry.height * 4 <= 0xffff_ffff,
    ensures
        ({
            let run = setup_run(geometry, loaded, answers);
            forall|i: int|
                0 <= i < run.actions.len() ==> stands(geometry, #[trigger] run.actions[i])
        }),
    decreases answers.len(),
{
    if answers.len() > 0 {
        law_window_stands_at_its_place(geometry, loaded, answers.drop_last());
        let before = setup_run(geometry, loaded, answers.drop_last());
        let step = setup_step(geometry, before.phase, answers.last(), loaded);
        let run = setup_run(geometry, loaded, answers);
        assert(0 <= geometry.width * geometry.height) by (nonlinear_arith);
        assert forall|i: int| 0 <= i < run.actions.len() implies stands(
            geometry,
            #[trigger] run.actions[i],
        ) by {
            if i < before.actions.len() {
                assert(run.actions[i] == before.actions[i]);
            } else {
                assert(run.actions[i] == step.actions[i - before.actions.len()]);
            }
        }
    }
}

/// Whether an action puts the window where the geometry says, if it puts it
/// anywhere.
pub open spec fn stands(geometry: Geometry, action: SetupAction) -> bool {
    match action {
        SetupAction::SetMargin { top, right, bottom, left } => top == geometry.y && right == 0
            && bottom == 0 && left == geometry.x,
        SetupAction::SetSize { width, height } => width == geometry.width && height
            == geometry.height,
        SetupAction::CreatePool { bytes } => bytes == geometry.width * geometry.height * 4,
        SetupAction::SetExclusiveZone { zone } => zone == -1,
        SetupAction::SetAnchor { edges } => edges.top && edges.left && !edges.bottom
            && !edges.right,
        SetupAction::CreateLayerSurface { layer } => layer == Layer::Overlay,
        SetupAction::SetKeyboardInteractivity { interactivity } => interactivity
            == KeyboardInteractivity::Never,
        _ => true,
    }
}

/// What follows once the shared memory is bound, request by request: the layer
/// surface, and then its place where that fits.
pub proof fn law_layer_surface_and_its_place(
    geometry: Geometry,
    loaded: Result<(), BackendErrorView>,
)
    requires
        geometry.width * geometry.height * 4 <= 0xffff_ffff,
    ensures
        ({
            let step = setup_step(geometry, SetupPhase::Shm, Ok(()), loaded);
            &&& step.actions.len() >= 5
            &&& step.actions[0] is CreateSurface
            &&& step.actions[1] is CreateLayerSurface
            &&& step.actions[2] is SetAnchor
            &&& step.actions[3] is SetKeyboardInteractivity
            &&& step.actions[4] is SetExclusiveZone
            &&& forall|i: int|
                0 <= i < step.actions.len() ==> stands(geometry, #[trigger] step.actions[i])
            &&& geometry.x <= 0x7fff_ffff && geometry.y <= 0x7fff_ffff ==> {
                &&& step.phase == SetupPhase::Pool
                &&& step.result is None
                &&& step.actions.len() == 9
                &&& step.actions[5] is SetMargin
                &&& step.actions[6] is SetSize
                &&& step.actions[7] is Commit
                &&& step.actions[8] is CreatePool
            }
            &&& geometry.x > 0x7fff_ffff || geometry.y > 0x7fff_ffff ==> {
                &&& step.phase == SetupPhase::Ended
                &&& step.result == Some(
                    Err::<(), BackendErrorView>(BackendErrorView::IntegerConversion),
                )
                &&& step.actions.len() == 5
            }
        }),
{
    assert(0 <= geometry.width * geometry.height) by (nonlinear_arith);
}

/// Two windows whose places differ stand in different places.
pub proof fn law_places_differ(first: Geometry, second: Geometry)
    requires
        first.x <= 0x7fff_ffff && first.y <= 0x7fff_ffff,
        second.x <= 0x7fff_ffff && second.y <= 0x7fff_ffff,
        place_script(first)[0] == place_script(second)[0],
    ensures
        first.x == second.x,
        first.y == second.y,
        place_script(first)[0] matches SetupAction::SetMargin { top, left, .. } && top == first.y
            && left == first.x,
{
}

/// When a place fits, and how many bytes an image has.
pub proof fn law_geometry_in_numbers(geometry: Geometry)
    ensures
        geometry.place_fits() <==> geometry.x <= 0x7fff_ffff && geometry.y <= 0x7fff_ffff,
        geometry.image_bytes() == 4 * (geometry.width * geometry.height),
{
    assert(geometry.width * geometry.height * 4 == 4 * (geometry.width * geometry.height))
        by (nonlinear_arith);
}

/// The steps of a creation that goes well, one by one.
pub proof fn law_creation_goes_step_by_step(
    geometry: Geometry,
    loaded: Result<(), BackendErrorView>,
)
    ensures
        setup_step(geometry, SetupPhase::Registry, Ok(()), loaded) == (SetupStep {
            phase: SetupPhase::Compositor,
            actions: seq![SetupAction::BindCompositor],
            result: None,
        }),
        setup_step(geometry, SetupPhase::Compositor, Ok(()), loaded) == (SetupStep {
            phase: SetupPhase::LayerShell,
            actions: seq![SetupAction::BindLayerShell],
            result: None,
        }),
        setup_step(geometry, SetupPhase::LayerShell, Ok(()), loaded) == (SetupStep {
            phase: SetupPhase::Shm,
            actions: seq![SetupAction::BindShm],
            result: None,
        }),
        setup_step(geometry, SetupPhase::Pool, Ok(()), loaded) == template_step(loaded),
        template_step(loaded).actions[0] == SetupAction::OpenChannel,
        template_step(loaded).actions[1] == SetupAction::TrackGlobals,
        loaded is Ok ==> {
            &&& template_step(loaded).phase == SetupPhase::Roundtrip
            &&& template_step(loaded).result is None
            &&& template_step(loaded).actions.len() == 3
            &&& template_step(loaded).actions[2] == SetupAction::Roundtrip
        },
        loaded matches Err(error) ==> {
            &&& template_step(loaded).phase == SetupPhase::Ended
            &&& template_step(loaded).result == Some(Err::<(), BackendErrorView>(error))
            &&& template_step(loaded).actions.len() == 2
        },
        setup_step(geometry, SetupPhase::Roundtrip, Ok(()), loaded) == (SetupStep {
            phase: SetupPhase::Ended,
            actions: seq![],
            result: Some(Ok(())),
        }),
        setup_step(geometry, SetupPhase::Ended, Ok(()), loaded) == (SetupStep {
            phase: SetupPhase::Ended,
            actions: seq![],
            result: None,
        }),
{
}

/// How the compositor's refusals are reported, and that an answer after the end
/// changes nothing.
pub proof fn law_refusals_are_reported(
    geometry: Geometry,
    loaded: Result<(), BackendErrorView>,
    phase: SetupPhase,
    text: Seq<char>,
)
    ensures
        ({
            let step = setup_step(geometry, phase, Err(text), loaded);
            &&& step.phase == SetupPhase::Ended
            &&& step.actions.len() == 0
            &&& match phase {
                SetupPhase::Registry => step.result == Some(
                    Err::<(), BackendErrorView>(
                        BackendErrorView::Wayland("registry init error: "@ + text),
                    ),
                ),
                SetupPhase::Roundtrip => step.result == Some(
                    Err::<(), BackendErrorView>(
                        BackendErrorView::Wayland("roundtrip error: "@ + text),
                    ),
                ),
                SetupPhase::Ended => step.result is None,
                _ => step.result == Some(
                    Err::<(), BackendErrorView>(BackendErrorView::Wayland(text)),
                ),
            }
        }),
{
    assert(refusal_context(SetupPhase::Compositor) + text == text);
}

/// A turn is the one that its model asks for exactly where the actions are the
/// same and the creation stands the same.
pub proof fn law_turn_follows_its_model<H: Host>(turn: SetupTurn<H>, step: SetupStep)
    ensures
        turn.follows(step) ==> turn.actions@ == step.actions,
        turn.follows(step) ==> (turn.result is None <==> step.result is None),
        turn.follows(step) ==> (turn.result matches Some(Ok(()))
            <==> step.result matches Some(Ok(()))),
        turn.follows(step) ==> (turn.result matches Some(Err(error)) ==> step.result == Some(
            Err::<(), BackendErrorView>(error@),
        )),
        turn.actions@ == step.actions && turn.result is None && step.result is None
            ==> turn.follows(step),
{
}

/// The models of a creation hold what they stand for.
pub proof fn law_models_of_a_creation(
    answer: Result<(), String>,
    phase: SetupPhase,
    action: SetupAction,
    actions: Seq<SetupAction>,
    error: BackendErrorView,
)
    ensures
        answer is Ok <==> answer_view(answer) is Ok,
        answer matches Err(text) ==> answer_view(answer) == Err::<(), Seq<char>>(text@),
        ask(phase, action).phase == phase,
        ask(phase, action).actions == seq![action],
        ask(phase, action).result is None,
        refuse(actions, error).phase == SetupPhase::Ended,
        refuse(actions, error).actions == actions,
        refuse(actions, error).result == Some(Err::<(), BackendErrorView>(error)),
        layer_script() == seq![
            SetupAction::CreateSurface,
            SetupAction::CreateLayerSurface { layer: Layer::Overlay },
            SetupAction::SetAnchor {
                edges: Edges { top: true, bottom: false, left: true, right: false },
            },
            SetupAction::SetKeyboardInteractivity { interactivity: KeyboardInteractivity::Never },
            SetupAction::SetExclusiveZone { zone: (-1) as i32 },
        ],
{
}

/// A window that was just created waits for its first configure event, has the
/// geometry's size, and nothing was handed to it yet.
pub proof fn law_fresh_window<H: Host>(state: WaylandState<H>, geometry: Geometry)
    ensures
        is_fresh(state, geometry) <==> {
            &&& state.first_configure
            &&& !state.configured
            &&& state.width == geometry.width
            &&& state.height == geometry.height
            &&& state.pointer is None
            &&& state.pending_draw is None
            &&& state.on_press is None
            &&& state.manager is None
            &&& state.config is None
        },
{
}

// Windows of the backend.

/// What a window is made of, and what is delivered to it.
pub proof fn law_window_and_its_deliveries<H: Host>(
    window: WaylandWindow<H>,
    event_sender: H::EventSender,
    state: WaylandState<H>,
    runtime: H::Runtime,
    event: WaylandEvent,
    delivery: Delivery<'_, H>,
)
    ensures
        window.made_of(event_sender, state, runtime) <==> {
            &&& window.event_sender == event_sender
            &&& window.runtime == runtime
            &&& tera_templates(*window.template) == tera_templates(state.window.template)
            &&& tera_filters(*window.template) == tera_filters(state.window.template)
        },
        window.delivers(event, delivery) <==> *delivery.event_sender == window.event_sender
            && delivery.event == event,
{
}

/// What a job asks to be rendered.
pub proof fn law_job_asks_for_its_parts<H: Host>(
    job: MessageJob<'_, H>,
    template: tera::Tera,
    notification: H::Notification,
    urgency_text: Option<String>,
    unread_count: usize,
)
    ensures
        job.asks(template, notification, urgency_text, unread_count) <==> {
            &&& *job.template == template
            &&& *job.notification == notification
            &&& job.urgency_text == urgency_text
            &&& job.unread_count == unread_count
        },
{
}

/// How the creation of a window starts.
pub proof fn law_creation_starts_with_the_registry<'a, H: Host>(
    backend: Wayland<H>,
    after: Wayland<H>,
    config: &'a GlobalConfig,
    started: (WindowSetup<'a>, SetupTurn<H>),
)
    ensures
        backend.starts_window(after, config, started) <==> {
            &&& after.connection == backend.connection
            &&& started.0.config == config
            &&& started.0.phase == SetupPhase::Registry
            &&& started.1.actions@ =~= seq![SetupAction::InitRegistry]
            &&& started.1.state is None
            &&& started.1.result is None
        },
{
}

/// The model of an error tells its kind and all of its text.
pub proof fn law_error_and_its_model(error: BackendError)
    ensures
        match error {
            BackendError::Wayland(text) => error@ == BackendErrorView::Wayland(text@),
            BackendError::Init(text) => error@ == BackendErrorView::Init(text@),
            BackendError::TemplateParse(text) => error@ == BackendErrorView::TemplateParse(text@),
            BackendError::Template(inner) => error@ == BackendErrorView::Template(inner),
            BackendError::IntegerConversion => error@ == BackendErrorView::IntegerConversion,
            BackendError::Cairo(text) => error@ == BackendErrorView::Cairo(text@),
            BackendError::Host(text) => error@ == BackendErrorView::Host(text@),
        },
{
}

// Event loop.

/// The loop watches the compositor, hands the window what it needs, watches the
/// window's channel, and then dispatches for good, 16 milliseconds at a time.
pub proof fn law_loop_goes_step_by_step(phase: LoopPhase)
    ensures
        next_phase(LoopPhase::Create) == LoopPhase::Source,
        next_phase(LoopPhase::Source) == LoopPhase::Channel,
        next_phase(LoopPhase::Channel) == LoopPhase::Dispatch,
        next_phase(LoopPhase::Dispatch) == LoopPhase::Dispatch,
        next_phase(LoopPhase::Ended) == LoopPhase::Ended,
        loop_script(LoopPhase::Create) == seq![LoopAction::CreateLoop],
        loop_script(LoopPhase::Source) == seq![LoopAction::InsertSource],
        loop_script(LoopPhase::Channel) == seq![LoopAction::Attach, LoopAction::InsertChannel],
        loop_script(LoopPhase::Dispatch) == seq![LoopAction::Dispatch { timeout_ms: 16 }],
        loop_script(LoopPhase::Ended).len() == 0,
        loop_context(phase) == match phase {
            LoopPhase::Create => "loop error: "@,
            LoopPhase::Source => "wayland source error: "@,
            LoopPhase::Channel => "channel error: "@,
            _ => "loop dispatch error: "@,
        },
{
}

// Message template.

/// The white space of Unicode, by its numbers.
pub proof fn law_white_space_by_its_numbers(c: char)
    ensures
        is_white_space(c) <==> {
            let n = c as int;
            ||| 9 <= n <= 13
            ||| n == 0x20 || n == 0x85 || n == 0xa0 || n == 0x1680
            ||| 0x2000 <= n <= 0x200a
            ||| n == 0x2028 || n == 0x2029 || n == 0x202f || n == 0x205f || n == 0x3000
        },
{
}

/// Trimming takes nothing but white space off the two ends: what is left is a
/// stretch of the text, and before and after it there is white space only.
pub proof fn law_trimming_takes_only_white_space(text: Seq<char>) -> (kept: (int, int))
    ensures
        0 <= kept.0 <= kept.1 <= text.len(),
        trimmed(text) == text.subrange(kept.0, kept.1),
        forall|i: int| 0 <= i < kept.0 ==> is_white_space(#[trigger] text[i]),
        forall|i: int| kept.1 <= i < text.len() ==> is_white_space(#[trigger] text[i]),
        kept.0 < kept.1 ==> !is_white_space(text[kept.0]) && !is_white_space(text[kept.1 - 1]),
    decreases text.len(),
{
    if text.len() > 0 && is_white_space(text.first()) {
        let inner = law_trimming_takes_only_white_space(text.drop_first());
        assert forall|i: int| 0 <= i < inner.0 + 1 implies is_white_space(#[trigger] text[i]) by {
            if i > 0 {
                assert(text.drop_first()[i - 1] == text[i]);
            }
        }
        assert forall|i: int| inner.1 + 1 <= i < text.len() implies is_white_space(
            #[trigger] text[i],
        ) by {
            assert(text.drop_first()[i - 1] == text[i]);
        }
        assert(text.drop_first().subrange(inner.0, inner.1) == text.subrange(
            inner.0 + 1,
            inner.1 + 1,
        ));
        (inner.0 + 1, inner.1 + 1)
    } else if text.len() > 0 && is_white_space(text.last()) {
        let inner = law_trimming_takes_only_white_space(text.drop_last());
        assert forall|i: int| 0 <= i < inner.0 implies is_white_space(#[trigger] text[i]) by {
            assert(text.drop_last()[i] == text[i]);
        }
        assert forall|i: int| inner.1 <= i < text.len() implies is_white_space(
            #[trigger] text[i],
        ) by {
            if i < text.len() - 1 {
                assert(text.drop_last()[i] == text[i]);
            }
        }
        assert(text.drop_last().subrange(inner.0, inner.1) == text.subrange(inner.0, inner.1));
        inner
    } else {
        assert(text.subrange(0, text.len() as int) == text);
        (0, text.len() as int)
    }
}

/// A window renders with the one template that was configured, the filter and
/// the font, and with no other.
pub proof fn law_window_renders_its_template(
    window: WindowRenderState,
    template_raw: Seq<char>,
    font: Seq<char>,
    outcome: Result<WindowRenderState, BackendError>,
)
    ensures
        window.renders(template_raw, font) <==> {
            &&& tera_templates(window.template) == map![
                "notification_message_template"@ => trimmed(template_raw),
            ]
            &&& tera_filters(window.template).contains("humantime"@)
            &&& window.font@ == font
        },
        WindowRenderState::prepares(template_raw, font, outcome) <==> match outcome {
            Ok(state) => state.renders(template_raw, font),
            Err(error) => WindowRenderState::reports(error@, template_raw),
        },
{
}

/// A refused template is reported by the text of the cause where Tera gives
/// one, and by Tera's error where it gives none; the refusal is of the template
/// that was configured.
pub proof fn law_refused_template_is_reported(
    source: Option<Seq<char>>,
    error: tera::Error,
    reported: BackendErrorView,
    template_raw: Seq<char>,
)
    ensures
        source matches Some(text) ==> refused_template(source, error)
            == BackendErrorView::TemplateParse(text),
        source is None ==> refused_template(source, error) == BackendErrorView::Template(error),
        WindowRenderState::reports(reported, template_raw) <==> exists|refused: tera::Error|
            #[trigger] tera_refuses(
                Map::empty(),
                "notification_message_template"@,
                trimmed(template_raw),
                refused,
            ) && reported == match error_source(refused) {
                Some(text) => BackendErrorView::TemplateParse(text),
                None => BackendErrorView::Template(refused),
            },
{
}

} // verus!
