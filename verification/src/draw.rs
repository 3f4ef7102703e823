//! Drawing a notification.
//!
//! A drawing goes back and forth between the backend and the surrounding
//! program: the backend names a few actions, the program carries them out in
//! order and answers the last one, and the answer decides what comes next.

use vstd::prelude::*;

use crate::backend::MessageJob;
use crate::error::{init_error, wayland_error, BackendError, BackendErrorView};
use crate::host::Host;
use crate::state::{DrawRequest, WaylandState};

verus! {

/// One of the two colors of an urgency.
#[derive(Clone, Copy, Debug, PartialEq, Eq, Structural)]
pub enum Ink {
    Background,
    Foreground,
}

/// What a drawing asks of the surrounding program.
#[derive(Clone, Copy, Debug, PartialEq, Eq, Structural)]
pub enum DrawAction {
    /// Run the commands of the notification's urgency.  Answered by `Done` or
    /// `Failed`.
    RunCommands,
    /// Render the message with the text of the urgency and the number of
    /// unread notifications.  Answered by `Message` or `Failed`.
    RenderMessage { unread_count: usize },
    /// Create a shared buffer of 32 bit pixels.  Answered by `Done` or
    /// `Refused`.
    CreateBuffer { width: i32, height: i32, stride: i32 },
    /// Create an image over the buffer's memory.  Answered by `Done` or
    /// `Refused`.
    CreateImage { width: i32, height: i32, stride: i32 },
    /// Create a drawing context on the image.  Answered by `Done` or
    /// `Refused`.
    CreateContext,
    /// Create a text layout in the window's font.
    CreateLayout,
    /// Draw in this color from now on.
    SetSource { ink: Ink },
    /// Fill the path.  Answered by `Done` or `Refused`.
    Fill,
    /// Paint the image.  Answered by `Done` or `Refused`.
    Paint,
    /// Go to a point.
    MoveTo { x: i32, y: i32 },
    /// Lay out the message of the drawing.
    SetMarkup,
    /// Measure the text.  Answered by `Measured`.
    Measure,
    /// Set the size of the layer surface.
    SetSize(u32, u32),
    /// Draw the text.
    ShowLayout,
    /// Declare a rectangle of the surface as changed.
    Damage { x: i32, y: i32, width: i32, height: i32 },
    /// Ask the compositor for the next frame event.
    RequestFrame,
    /// Attach the buffer to the surface.  Answered by `Done` or `Refused`.
    AttachBuffer,
    /// Commit the layer surface.
    Commit,
}

/// The answer to the last action of a turn.
#[derive(Debug)]
pub enum DrawReply {
    /// It was carried out.
    Done,
    /// The rendered message.
    Message(String),
    /// The size of the text in pixels.
    Measured { width: i32, height: i32 },
    /// The surrounding program failed.
    Failed(BackendError),
    /// The compositor or the drawing library refused; holds its words.
    Refused(String),
}

/// A [`DrawReply`] with its texts taken as sequences of characters.
pub enum DrawReplyView {
    Done,
    Message(Seq<char>),
    Measured { width: i32, height: i32 },
    Failed(BackendErrorView),
    Refused(Seq<char>),
}

impl View for DrawReply {
    type V = DrawReplyView;

    open spec fn view(&self) -> DrawReplyView {
        match self {
            DrawReply::Done => DrawReplyView::Done,
            DrawReply::Message(text) => DrawReplyView::Message(text@),
            DrawReply::Measured { width, height } => DrawReplyView::Measured {
                width: *width,
                height: *height,
            },
            DrawReply::Failed(error) => DrawReplyView::Failed(error@),
            DrawReply::Refused(text) => DrawReplyView::Refused(text@),
        }
    }
}

/// Which action of a drawing waits for its answer.
#[derive(Clone, Copy, Debug, PartialEq, Eq, Structural)]
pub enum DrawPhase {
    Commands,
    Render,
    Buffer,
    Image,
    Context,
    Fill,
    Paint,
    Measure,
    Attach,
    /// The drawing is over.
    Ended,
}

/// A drawing under way.
pub struct Drawing<H: Host> {
    pub request: DrawRequest<H>,
    /// Whether the window takes the size of the text.
    pub wrap_content: bool,
    pub phase: DrawPhase,
    /// The rendered message; empty before it was rendered.
    pub message: String,
    /// Size of the buffer in pixels and of its rows in bytes; zero before the
    /// message was rendered.
    pub width: u32,
    pub height: u32,
    pub stride: i32,
}

/// What is to be done now, in order, and, once the drawing is over, how it
/// went.
#[derive(Debug)]
pub struct DrawTurn {
    pub actions: Vec<DrawAction>,
    pub result: Option<Result<(), BackendError>>,
}

/// The model of a [`Drawing`]: all of it but the notification, which a drawing
/// carries along and never looks into.
#[verifier::ext_equal]
pub struct DrawModel {
    pub wrap_content: bool,
    pub unread_count: usize,
    pub phase: DrawPhase,
    pub message: Seq<char>,
    pub width: u32,
    pub height: u32,
    pub stride: i32,
}

/// The model of a turn: the window's size and the drawing after it, what is to
/// be done, and how the drawing went once it is over.
#[verifier::ext_equal]
pub struct DrawStep {
    pub size: (u32, u32),
    pub drawing: DrawModel,
    pub actions: Seq<DrawAction>,
    pub result: Option<Result<(), BackendErrorView>>,
}

impl<H: Host> View for Drawing<H> {
    type V = DrawModel;

    open spec fn view(&self) -> DrawModel {
        DrawModel {
            wrap_content: self.wrap_content,
            unread_count: self.request.unread_count,
            phase: self.phase,
            message: self.message@,
            width: self.width,
            height: self.height,
            stride: self.stride,
        }
    }
}

/// How a drawing went, with the texts taken as sequences of characters.
pub open spec fn result_view(result: Option<Result<(), BackendError>>) -> Option<
    Result<(), BackendErrorView>,
> {
    match result {
        None => None,
        Some(Ok(())) => Some(Ok(())),
        Some(Err(error)) => Some(Err(error@)),
    }
}

/// A number of 32 bits read as a signed one.
pub open spec fn as_signed(number: u32) -> i32 {
    if number <= i32::MAX {
        number as i32
    } else {
        (number - 0x1_0000_0000) as i32
    }
}

/// Bytes in a row of pixels.
pub open spec fn row_bytes(width: u32) -> int {
    width * 4
}

/// A dimension, but no less than one.
pub open spec fn at_least_one(number: int) -> int {
    if number < 1 {
        1
    } else {
        number
    }
}

/// See [`as_signed`].
pub fn read_signed(number: u32) -> (result: i32)
    ensures
        result == as_signed(number),
        number <= 0x7fff_ffff ==> result == number,
        number > 0x7fff_ffff ==> result == number - 0x1_0000_0000,
{
    assert(number <= 0x7fff_ffff ==> number as i32 == number) by (bit_vector);
    assert(number > 0x7fff_ffff ==> number as i32 == number - 0x1_0000_0000) by (bit_vector);
    #[verifier::truncate]
    (number as i32)
}

/// The last actions of a drawing, up to the one that is answered.
pub open spec fn present_script(drawing: DrawModel) -> Seq<DrawAction> {
    seq![
        DrawAction::ShowLayout,
        DrawAction::Damage {
            x: 0,
            y: 0,
            width: as_signed(drawing.width),
            height: as_signed(drawing.height),
        },
        DrawAction::RequestFrame,
        DrawAction::AttachBuffer,
    ]
}

/// The actions that put the message on the painted background.
pub open spec fn text_script() -> Seq<DrawAction> {
    seq![
        DrawAction::SetSource { ink: Ink::Foreground },
        DrawAction::MoveTo { x: 0, y: 0 },
        DrawAction::SetMarkup,
    ]
}

/// The drawing goes on: its next phase and what leads there.
pub open spec fn go_on(
    size: (u32, u32),
    drawing: DrawModel,
    phase: DrawPhase,
    actions: Seq<DrawAction>,
) -> DrawStep {
    DrawStep { size, drawing: DrawModel { phase, ..drawing }, actions, result: None }
}

/// The drawing is over, for this reason, and nothing more is done.
pub open spec fn give_up(
    size: (u32, u32),
    drawing: DrawModel,
    error: BackendErrorView,
) -> DrawStep {
    DrawStep {
        size,
        drawing: DrawModel { phase: DrawPhase::Ended, ..drawing },
        actions: seq![],
        result: Some(Err(error)),
    }
}

/// What an answer leads to, in a window of the given size.  An answer of
/// another kind than the action that waits for it leads to nothing.
pub open spec fn draw_step(size: (u32, u32), drawing: DrawModel, reply: DrawReplyView) -> DrawStep {
    match (drawing.phase, reply) {
        (DrawPhase::Commands, DrawReplyView::Done) => go_on(
            size,
            drawing,
            DrawPhase::Render,
            seq![DrawAction::RenderMessage { unread_count: drawing.unread_count }],
        ),
        (DrawPhase::Commands, DrawReplyView::Failed(error)) => give_up(size, drawing, error),
        (DrawPhase::Render, DrawReplyView::Message(message)) => {
            let width = at_least_one(size.0 as int) as u32;
            let height = at_least_one(size.1 as int) as u32;
            let stride = as_signed(row_bytes(width) as u32);
            go_on(
                size,
                DrawModel { message, width, height, stride, ..drawing },
                DrawPhase::Buffer,
                seq![
                    DrawAction::CreateBuffer {
                        width: as_signed(width),
                        height: as_signed(height),
                        stride,
                    },
                ],
            )
        },
        (DrawPhase::Render, DrawReplyView::Failed(error)) => give_up(size, drawing, error),
        (DrawPhase::Buffer, DrawReplyView::Done) => go_on(
            size,
            drawing,
            DrawPhase::Image,
            seq![
                DrawAction::CreateImage {
                    width: as_signed(drawing.width),
                    height: as_signed(drawing.height),
                    stride: drawing.stride,
                },
            ],
        ),
        (DrawPhase::Buffer, DrawReplyView::Refused(text)) => give_up(
            size,
            drawing,
            BackendErrorView::Wayland(text),
        ),
        (DrawPhase::Image, DrawReplyView::Done) => go_on(
            size,
            drawing,
            DrawPhase::Context,
            seq![DrawAction::CreateContext],
        ),
        (DrawPhase::Context, DrawReplyView::Done) => go_on(
            size,
            drawing,
            DrawPhase::Fill,
            seq![
                DrawAction::CreateLayout,
                DrawAction::SetSource { ink: Ink::Background },
                DrawAction::Fill,
            ],
        ),
        (DrawPhase::Fill, DrawReplyView::Done) => go_on(
            size,
            drawing,
            DrawPhase::Paint,
            seq![DrawAction::Paint],
        ),
        (DrawPhase::Paint, DrawReplyView::Done) => if drawing.wrap_content {
            go_on(size, drawing, DrawPhase::Measure, text_script().push(DrawAction::Measure))
        } else {
            go_on(size, drawing, DrawPhase::Attach, text_script() + present_script(drawing))
        },
        (
            DrawPhase::Image | DrawPhase::Context | DrawPhase::Fill | DrawPhase::Paint,
            DrawReplyView::Refused(text),
        ) => give_up(size, drawing, BackendErrorView::Cairo(text)),
        (DrawPhase::Measure, DrawReplyView::Measured { width, height }) => {
            let measured = (at_least_one(width as int) as u32, at_least_one(height as int) as u32);
            let resize = DrawAction::SetSize(measured.0, measured.1);
            go_on(measured, drawing, DrawPhase::Attach, seq![resize] + present_script(drawing))
        },
        (DrawPhase::Attach, DrawReplyView::Done) => DrawStep {
            size,
            drawing: DrawModel { phase: DrawPhase::Ended, ..drawing },
            actions: seq![DrawAction::Commit],
            result: Some(Ok(())),
        },
        (DrawPhase::Attach, DrawReplyView::Refused(text)) => give_up(
            size,
            drawing,
            BackendErrorView::Wayland(ATTACH_ERROR@ + text),
        ),
        _ => go_on(size, drawing, drawing.phase, seq![]),
    }
}

/// Words before the compositor's, where it refuses the buffer.
pub const ATTACH_ERROR: &'static str = "buffer attach error: ";

/// Words for a drawing that was asked for before the configuration was there.
pub const MISSING_CONFIG: &'static str = "missing config";

impl DrawTurn {
    /// The drawing goes on with these actions.
    fn go_on(actions: Vec<DrawAction>) -> (turn: Self)
        ensures
            turn.actions == actions,
            turn.result is None,
    {
        DrawTurn { actions, result: None }
    }

    /// The drawing is over for this reason.
    fn give_up(error: BackendError) -> (turn: Self)
        ensures
            turn.actions@ == Seq::<DrawAction>::empty(),
            turn.result == Some(Err::<(), BackendError>(error)),
    {
        DrawTurn { actions: Vec::new(), result: Some(Err(error)) }
    }
}

impl<H: Host> Drawing<H> {
    /// The message that [`DrawAction::RenderMessage`] asks for: the
    /// notification's, with the window's own template.
    pub fn message_job<'a>(
        &'a self,
        state: &'a WaylandState<H>,
        urgency_text: Option<String>,
    ) -> (job: MessageJob<'a, H>)
        ensures
            job.asks(
                state.window.template,
                self.request.notification,
                urgency_text,
                self.request.unread_count,
            ),
    {
        MessageJob {
            template: &state.window.template,
            notification: &self.request.notification,
            urgency_text,
            unread_count: self.request.unread_count,
        }
    }

    /// Appends the last actions.
    fn push_present(&self, actions: &mut Vec<DrawAction>)
        ensures
            final(actions)@ == old(actions)@ + present_script(self@),
    {
        actions.push(DrawAction::ShowLayout);
        actions.push(
            DrawAction::Damage {
                x: 0,
                y: 0,
                width: read_signed(self.width),
                height: read_signed(self.height),
            },
        );
        actions.push(DrawAction::RequestFrame);
        actions.push(DrawAction::AttachBuffer);
    }
}

/// A drawing that was just started.
pub open spec fn fresh_drawing(wrap_content: bool, unread_count: usize) -> DrawModel {
    DrawModel {
        wrap_content,
        unread_count,
        phase: DrawPhase::Commands,
        message: seq![],
        width: 0,
        height: 0,
        stride: 0,
    }
}

impl<H: Host> WaylandState<H> {
    /// The window's size.
    pub open spec fn size(self) -> (u32, u32) {
        (self.width, self.height)
    }

    /// The state with another size.
    pub open spec fn resized(self, size: (u32, u32)) -> Self {
        WaylandState { width: size.0, height: size.1, ..self }
    }

    /// How a drawing starts: the commands of the notification's urgency are to
    /// be run first; without a configuration nothing can be drawn.
    pub open spec fn starts_drawing(
        self,
        request: DrawRequest<H>,
        outcome: Result<(Drawing<H>, DrawTurn), BackendError>,
    ) -> bool {
        match (self.config, outcome) {
            (Some(config), Ok((drawing, turn))) => {
                &&& drawing.request == request
                &&& drawing@ == fresh_drawing(config.global.wrap_content, request.unread_count)
                &&& turn.actions@ == seq![DrawAction::RunCommands]
                &&& turn.result is None
            },
            (None, Err(error)) => error@ == BackendErrorView::Init(MISSING_CONFIG@),
            _ => false,
        }
    }

    /// Starts to draw: first, the commands of the notification's urgency are
    /// run.  Without a configuration nothing can be drawn.
    pub fn draw(&self, request: DrawRequest<H>) -> (outcome: Result<
        (Drawing<H>, DrawTurn),
        BackendError,
    >)
        ensures
            self.starts_drawing(request, outcome),
            outcome is Ok <==> self.config is Some,
            outcome matches Ok((drawing, turn)) ==> {
                &&& drawing.request == request
                &&& drawing.wrap_content == self.config->Some_0.global.wrap_content
                &&& drawing.phase == DrawPhase::Commands
                &&& drawing.message@.len() == 0
                &&& turn.actions@.len() == 1
                &&& turn.actions@[0] == DrawAction::RunCommands
                &&& turn.result is None
            },
    {
        match &self.config {
            Some(config) => {
                let drawing: Drawing<H> = Drawing {
                    request,
                    wrap_content: config.global.wrap_content,
                    phase: DrawPhase::Commands,
                    message: String::new(),
                    width: 0,
                    height: 0,
                    stride: 0,
                };
                let turn: DrawTurn = DrawTurn::go_on(vec![DrawAction::RunCommands]);
                assert(turn.actions@ == seq![DrawAction::RunCommands]);
                Ok((drawing, turn))
            },
            None => Err(init_error(MISSING_CONFIG)),
        }
    }

    /// Goes on with a drawing, given the answer to the last action of the turn
    /// before.  A row of the buffer has to be countable in 32 bits.
    pub fn resume_draw(&mut self, drawing: &mut Drawing<H>, reply: DrawReply) -> (turn: DrawTurn)
        requires
            old(drawing).phase == DrawPhase::Render && reply is Message ==> row_bytes(
                at_least_one(old(self).width as int) as u32,
            ) <= u32::MAX,
        ensures
            ({
                let step = draw_step(old(self).size(), old(drawing)@, reply@);
                &&& *final(self) == old(self).resized(step.size)
                &&& final(drawing)@ == step.drawing
                &&& final(drawing).request == old(drawing).request
                &&& turn.actions@ == step.actions
                &&& result_view(turn.result) == step.result
            }),
            final(drawing).wrap_content == old(drawing).wrap_content,
            ({
                let measured = old(drawing).phase == DrawPhase::Measure && reply is Measured;
                let w = reply->Measured_width;
                let h = reply->Measured_height;
                *final(self) == (WaylandState {
                    width: if !measured {
                        old(self).width
                    } else if w > 1 {
                        w as u32
                    } else {
                        1
                    },
                    height: if !measured {
                        old(self).height
                    } else if h > 1 {
                        h as u32
                    } else {
                        1
                    },
                    ..*old(self)
                })
            }),
            old(drawing).phase == DrawPhase::Render && reply is Message ==> {
                let w: int = if old(self).width > 1 { old(self).width as int } else { 1 };
                let h: int = if old(self).height > 1 { old(self).height as int } else { 1 };
                &&& final(drawing).width == w
                &&& final(drawing).height == h
                &&& final(drawing).message == reply->Message_0
                &&& 4 * w <= i32::MAX ==> final(drawing).stride == 4 * w
                &&& 4 * w > i32::MAX ==> final(drawing).stride == 4 * w - 0x1_0000_0000
                &&& turn.actions@.len() == 1
                &&& turn.actions@[0] matches DrawAction::CreateBuffer { width, height, stride } && {
                    &&& w <= i32::MAX ==> width == w
                    &&& h <= i32::MAX ==> height == h
                    &&& stride == final(drawing).stride
                }
            },
            !(old(drawing).phase == DrawPhase::Render && reply is Message) ==> {
                &&& final(drawing).width == old(drawing).width
                &&& final(drawing).height == old(drawing).height
                &&& final(drawing).stride == old(drawing).stride
                &&& final(drawing).message@ == old(drawing).message@
            },
            old(self).wf() ==> final(self).wf(),
    {
        match (drawing.phase, reply) {
            (DrawPhase::Commands, DrawReply::Done) => {
                drawing.phase = DrawPhase::Render;
                let unread_count: usize = drawing.request.unread_count;
                DrawTurn::go_on(vec![DrawAction::RenderMessage { unread_count }])
            },
            (DrawPhase::Commands | DrawPhase::Render, DrawReply::Failed(error)) => {
                drawing.phase = DrawPhase::Ended;
                DrawTurn::give_up(error)
            },
            (DrawPhase::Render, DrawReply::Message(message)) => {
                let width: u32 = if self.width < 1 { 1 } else { self.width };
                let height: u32 = if self.height < 1 { 1 } else { self.height };
                drawing.message = message;
                drawing.width = width;
                drawing.height = height;
                drawing.stride = read_signed(width * 4);
                drawing.phase = DrawPhase::Buffer;
                DrawTurn::go_on(
                    vec![
                        DrawAction::CreateBuffer {
                            width: read_signed(width),
                            height: read_signed(height),
                            stride: drawing.stride,
                        },
                    ],
                )
            },
            (DrawPhase::Buffer, DrawReply::Done) => {
                drawing.phase = DrawPhase::Image;
                DrawTurn::go_on(
                    vec![
                        DrawAction::CreateImage {
                            width: read_signed(drawing.width),
                            height: read_signed(drawing.height),
                            stride: drawing.stride,
                        },
                    ],
                )
            },
            (DrawPhase::Buffer, DrawReply::Refused(text)) => {
                drawing.phase = DrawPhase::Ended;
                DrawTurn::give_up(BackendError::Wayland(text))
            },
            (DrawPhase::Image, DrawReply::Done) => {
                drawing.phase = DrawPhase::Context;
                DrawTurn::go_on(vec![DrawAction::CreateContext])
            },
            (DrawPhase::Context, DrawReply::Done) => {
                drawing.phase = DrawPhase::Fill;
                DrawTurn::go_on(
                    vec![
                        DrawAction::CreateLayout,
                        DrawAction::SetSource { ink: Ink::Background },
                        DrawAction::Fill,
                    ],
                )
            },
            (DrawPhase::Fill, DrawReply::Done) => {
                drawing.phase = DrawPhase::Paint;
                DrawTurn::go_on(vec![DrawAction::Paint])
            },
            (DrawPhase::Paint, DrawReply::Done) => {
                let mut actions: Vec<DrawAction> = vec![
                    DrawAction::SetSource { ink: Ink::Foreground },
                    DrawAction::MoveTo { x: 0, y: 0 },
                    DrawAction::SetMarkup,
                ];
                if drawing.wrap_content {
                    drawing.phase = DrawPhase::Measure;
                    actions.push(DrawAction::Measure);
                } else {
                    drawing.phase = DrawPhase::Attach;
                    drawing.push_present(&mut actions);
                }
                DrawTurn::go_on(actions)
            },
            (
                DrawPhase::Image | DrawPhase::Context | DrawPhase::Fill | DrawPhase::Paint,
                DrawReply::Refused(text),
            ) => {
                drawing.phase = DrawPhase::Ended;
                DrawTurn::give_up(BackendError::Cairo(text))
            },
            (DrawPhase::Measure, DrawReply::Measured { width, height }) => {
                self.width = if width < 1 { 1 } else { width as u32 };
                self.height = if height < 1 { 1 } else { height as u32 };
                drawing.phase = DrawPhase::Attach;
                let mut actions: Vec<DrawAction> = vec![
                    DrawAction::SetSize(self.width, self.height),
                ];
                drawing.push_present(&mut actions);
                DrawTurn::go_on(actions)
            },
            (DrawPhase::Attach, DrawReply::Done) => {
                drawing.phase = DrawPhase::Ended;
                DrawTurn { actions: vec![DrawAction::Commit], result: Some(Ok(())) }
            },
            (DrawPhase::Attach, DrawReply::Refused(text)) => {
                drawing.phase = DrawPhase::Ended;
                DrawTurn::give_up(wayland_error(ATTACH_ERROR, text.as_str()))
            },
            _ => DrawTurn::go_on(Vec::new()),
        }
    }
}

} // verus!
