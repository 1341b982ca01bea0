//! The frame renderer: what a tick does once the host has tried to acquire the
//! surface's next texture.
//!
//! Acquiring, recording, submitting and presenting are the host's work.
//! [`graphics_render`] decides: it takes the outcome of the acquisition, sets
//! the frame-drop flag and returns the commands that the host performs, in
//! order.

use vstd::prelude::*;
use crate::surface::FrameDropState;

verus! {

/// `wgpu::SurfaceError`, the reason why `wgpu::Surface::get_current_texture`
/// handed out no texture. Nothing is claimed about a value of it: every failure
/// is handled alike, so the library never looks inside.
#[verifier::external_type_specification]
#[verifier::external_body]
pub struct ExSurfaceError(wgpu::SurfaceError);

/// A colour with eight bits for each of red, green, blue and alpha.
#[derive(Clone, Copy, Debug, PartialEq, Eq)]
pub struct Color {
    pub r: u8,
    pub g: u8,
    pub b: u8,
    pub a: u8,
}

/// What happens to an attachment's contents when a pass begins.
#[derive(Clone, Copy, Debug, PartialEq, Eq)]
pub enum LoadOp {
    /// Keep what the attachment holds.
    Load,
    /// Fill the whole attachment with one colour.
    Clear(Color),
}

/// What a pass does to an attachment at its beginning and at its end.
#[derive(Clone, Copy, Debug, PartialEq, Eq)]
pub struct Operations {
    pub load: LoadOp,
    /// Whether what the pass drew is written back to the attachment.
    pub store: bool,
}

/// A colour attachment of a pass. Its target is the view of the texture that
/// was acquired for the frame; nothing is resolved into another target.
#[derive(Clone, Copy, Debug, PartialEq, Eq)]
pub struct ColorAttachment {
    pub ops: Operations,
}

/// A render pass without draw calls: all it does is what its attachments'
/// operations say.
#[derive(Debug, PartialEq, Eq)]
pub struct RenderPass {
    pub color_attachments: Vec<ColorAttachment>,
    /// Whether the pass has a depth/stencil attachment.
    pub depth_stencil_attachment: bool,
}

/// A [`RenderPass`] as a mathematical value.
pub struct RenderPassView {
    pub color_attachments: Seq<ColorAttachment>,
    pub depth_stencil_attachment: bool,
}

impl View for RenderPass {
    type V = RenderPassView;

    open spec fn view(&self) -> RenderPassView {
        RenderPassView {
            color_attachments: self.color_attachments@,
            depth_stencil_attachment: self.depth_stencil_attachment,
        }
    }
}

/// One thing that the host does to the GPU for a frame.
#[derive(Debug, PartialEq, Eq)]
pub enum FrameCommand {
    /// Record the pass into the frame's command encoder.
    Record(RenderPass),
    /// Finish the encoder and submit what was recorded to the queue.
    Submit,
    /// Present the acquired texture.
    Present,
}

/// A [`FrameCommand`] as a mathematical value.
pub enum FrameCommandView {
    Record(RenderPassView),
    Submit,
    Present,
}

impl View for FrameCommand {
    type V = FrameCommandView;

    open spec fn view(&self) -> FrameCommandView {
        match *self {
            FrameCommand::Record(pass) => FrameCommandView::Record(pass@),
            FrameCommand::Submit => FrameCommandView::Submit,
            FrameCommand::Present => FrameCommandView::Present,
        }
    }
}

/// The commands of a frame as mathematical values, in order.
pub open spec fn commands_view(commands: Seq<FrameCommand>) -> Seq<FrameCommandView> {
    Seq::new(commands.len(), |i: int| commands[i]@)
}

/// The diagnostic clear colour: opaque pure red. A frame that is drawn
/// correctly covers all of it, so red on the screen shows a fault.
pub open spec fn diagnostic_clear_color() -> Color {
    Color { r: 255, g: 0, b: 0, a: 255 }
}

/// The pass of every frame: one colour attachment, cleared to the diagnostic
/// colour and stored, and no depth/stencil attachment.
pub open spec fn clear_pass_view() -> RenderPassView {
    RenderPassView {
        color_attachments: seq![
            ColorAttachment {
                ops: Operations { load: LoadOp::Clear(diagnostic_clear_color()), store: true },
            },
        ],
        depth_stencil_attachment: false,
    }
}

/// What the host performs for a frame: nothing if no texture was acquired,
/// else one clear pass, one submission and one presentation, in that order.
pub open spec fn frame_commands(acquired: bool) -> Seq<FrameCommandView> {
    if acquired {
        seq![
            FrameCommandView::Record(clear_pass_view()),
            FrameCommandView::Submit,
            FrameCommandView::Present,
        ]
    } else {
        Seq::empty()
    }
}

/// The frame-drop flag after a frame: set exactly if no texture was acquired.
pub open spec fn frame_drop_state(acquired: bool) -> FrameDropState {
    FrameDropState { dropped: !acquired }
}

/// The pass of a frame has exactly one colour attachment, which is cleared to
/// the diagnostic colour and stored, and no depth/stencil attachment.
pub proof fn lemma_clear_pass_attachments()
    ensures
        clear_pass_view().color_attachments.len() == 1,
        clear_pass_view().color_attachments[0].ops.load == LoadOp::Clear(diagnostic_clear_color()),
        clear_pass_view().color_attachments[0].ops.store,
        !clear_pass_view().depth_stencil_attachment,
        diagnostic_clear_color() == (Color { r: 255, g: 0, b: 0, a: 255 }),
{
}

/// A frame whose texture was not acquired is dropped: the flag is set and
/// nothing is recorded, submitted or presented.
pub proof fn lemma_failed_acquisition_drops_frame()
    ensures
        frame_drop_state(false).dropped,
        frame_commands(false).len() == 0,
{
}

/// A frame whose texture was acquired clears the flag, whatever it was, and
/// holds three commands: the clear pass is recorded once, then submitted once,
/// then the texture is presented once.
pub proof fn lemma_acquired_frame_is_presented()
    ensures
        !frame_drop_state(true).dropped,
        frame_commands(true).len() == 3,
        frame_commands(true)[0] == FrameCommandView::Record(clear_pass_view()),
        frame_commands(true)[1] == FrameCommandView::Submit,
        frame_commands(true)[2] == FrameCommandView::Present,
{
}

/// The colour that every frame is cleared to.
pub fn clear_color() -> (color: Color)
    ensures
        color == diagnostic_clear_color(),
{
    Color { r: 255, g: 0, b: 0, a: 255 }
}

/// The render pass that clears the whole target to the diagnostic colour.
pub fn clear_pass() -> (pass: RenderPass)
    ensures
        pass@ == clear_pass_view(),
        pass@.color_attachments.len() == 1,
        pass@.color_attachments[0].ops.load == LoadOp::Clear(diagnostic_clear_color()),
        pass@.color_attachments[0].ops.store,
        !pass@.depth_stencil_attachment,
{
    let attachment = ColorAttachment {
        ops: Operations { load: LoadOp::Clear(clear_color()), store: true },
    };
    let mut color_attachments: Vec<ColorAttachment> = Vec::new();
    color_attachments.push(attachment);
    let pass = RenderPass { color_attachments, depth_stencil_attachment: false };
    assert(pass@.color_attachments =~= clear_pass_view().color_attachments);
    pass
}

/// Renders one frame, as far as deciding goes. `acquired` says whether the
/// surface handed out its next texture.
///
/// If it did not, for whatever reason, the frame is dropped: the flag is set
/// and the host has nothing to perform. If it did, the flag is cleared, and the
/// host records the clear pass, submits it and presents the texture.
pub fn graphics_render(
    drop_state: &mut FrameDropState,
    acquired: Result<(), wgpu::SurfaceError>,
) -> (commands: Vec<FrameCommand>)
    ensures
        *final(drop_state) == frame_drop_state(acquired is Ok),
        commands_view(commands@) == frame_commands(acquired is Ok),
        commands@.len() == frame_commands(acquired is Ok).len(),
        forall|i: int|
            0 <= i < commands@.len() ==> (#[trigger] commands@[i])@ == frame_commands(
                acquired is Ok,
            )[i],
{
    let mut commands: Vec<FrameCommand> = Vec::new();
    match acquired {
        Err(_) => {
            drop_state.dropped = true;
        },
        Ok(_) => {
            drop_state.dropped = false;
            commands.push(FrameCommand::Record(clear_pass()));
            commands.push(FrameCommand::Submit);
            commands.push(FrameCommand::Present);
        },
    }
    assert(commands_view(commands@) =~= frame_commands(acquired is Ok));
    commands
}

} // verus!
