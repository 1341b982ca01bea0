//! The data that the three stages share: the size of a window, the
//! configuration of the surface bound to it, and the frame-drop flag.

use vstd::prelude::*;

verus! {

/// `wgpu::TextureFormat`, the pixel format of a surface's textures. Nothing is
/// claimed about a value of it: the library carries the format that the adapter
/// prefers from the place where it was queried to the place where the surface is
/// configured, and never looks inside.
#[verifier::external_type_specification]
#[verifier::external_body]
pub struct ExTextureFormat(wgpu::TextureFormat);

/// The size of a window in physical pixels.
#[derive(Clone, Copy, Debug, PartialEq, Eq)]
pub struct PhysicalSize {
    pub width: u32,
    pub height: u32,
}

impl PhysicalSize {
    /// A window with no area is minimized: it has nothing to present to.
    pub open spec fn is_minimized(self) -> bool {
        self.width == 0 || self.height == 0
    }

    /// Whether the window has no area.
    pub fn minimized(&self) -> (minimized: bool)
        ensures
            minimized == self.is_minimized(),
    {
        self.width == 0 || self.height == 0
    }
}

/// What the textures of a surface are used for.
#[derive(Clone, Copy, Debug, PartialEq, Eq)]
pub enum TextureUsage {
    CopySrc,
    CopyDst,
    TextureBinding,
    StorageBinding,
    RenderAttachment,
}

/// How presented frames are synchronised with the display.
#[derive(Clone, Copy, Debug, PartialEq, Eq)]
pub enum PresentMode {
    Immediate,
    Mailbox,
    /// Wait for the vertical blank; frames queue first in, first out.
    Fifo,
}

/// How a surface is set up for rendering.
#[derive(Clone, Copy, Debug, PartialEq, Eq)]
pub struct SurfaceConfiguration {
    pub usage: TextureUsage,
    pub format: wgpu::TextureFormat,
    pub width: u32,
    pub height: u32,
    pub present_mode: PresentMode,
}

impl SurfaceConfiguration {
    /// A configuration can be applied to a surface only if it has an area.
    pub open spec fn well_formed(self) -> bool {
        self.width > 0 && self.height > 0
    }

    /// The size that the configuration gives the surface.
    pub open spec fn size(self) -> PhysicalSize {
        PhysicalSize { width: self.width, height: self.height }
    }

    /// The same configuration for another size.
    pub open spec fn resized(self, size: PhysicalSize) -> SurfaceConfiguration {
        SurfaceConfiguration { width: size.width, height: size.height, ..self }
    }

    /// The configuration of a surface that is rendered to and presented with
    /// vertical sync, in the given format and size.
    pub open spec fn presentable(
        format: wgpu::TextureFormat,
        size: PhysicalSize,
    ) -> SurfaceConfiguration {
        SurfaceConfiguration {
            usage: TextureUsage::RenderAttachment,
            format,
            width: size.width,
            height: size.height,
            present_mode: PresentMode::Fifo,
        }
    }

    /// Builds the configuration of a surface that is rendered to and presented
    /// with vertical sync, or `None` for a window without area.
    pub fn new(format: wgpu::TextureFormat, size: PhysicalSize) -> (config: Option<
        SurfaceConfiguration,
    >)
        ensures
            size.is_minimized() ==> config is None,
            !size.is_minimized() ==> config == Some(Self::presentable(format, size)),
            config matches Some(c) ==> c.well_formed(),
    {
        if size.minimized() {
            None
        } else {
            Some(
                SurfaceConfiguration {
                    usage: TextureUsage::RenderAttachment,
                    format,
                    width: size.width,
                    height: size.height,
                    present_mode: PresentMode::Fifo,
                },
            )
        }
    }
}

/// Whether the previous frame was dropped.
#[derive(Clone, Copy, Debug, PartialEq, Eq)]
pub struct FrameDropState {
    pub dropped: bool,
}

impl FrameDropState {
    /// The state before the first frame: it counts as dropped, so that the first
    /// tick configures the surface.
    pub fn initial() -> (state: FrameDropState)
        ensures
            state == (FrameDropState { dropped: true }),
    {
        FrameDropState { dropped: true }
    }
}

} // verus!
