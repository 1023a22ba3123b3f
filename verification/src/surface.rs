use vstd::prelude::*;
use crate::geometry::PhysicalSize;

verus! {

/// How finished frames are handed to the display.
#[derive(Clone, Copy, Debug, PartialEq, Eq, Structural)]
pub enum PresentMode {
    AutoVsync,
    AutoNoVsync,
    /// Frames queue up and one is shown per vertical blank.
    Fifo,
    FifoRelaxed,
    Immediate,
    Mailbox,
}

/// How the surface's alpha channel is composited with what lies behind
/// the window.
#[derive(Clone, Copy, Debug, PartialEq, Eq, Structural)]
pub enum AlphaMode {
    /// Left to the surface to choose.
    Auto,
    Opaque,
    PreMultiplied,
    PostMultiplied,
    Inherit,
}

/// What the surface's textures are used for.
#[derive(Clone, Copy, Debug, PartialEq, Eq, Structural)]
pub enum TextureUsage {
    CopySource,
    CopyDestination,
    TextureBinding,
    StorageBinding,
    RenderAttachment,
}

/// The agreement between a surface and a device. `F` is the type that
/// names a pixel format.
#[derive(Clone, Copy, Debug, PartialEq, Eq)]
pub struct SurfaceConfig<F> {
    pub usage: TextureUsage,
    pub format: F,
    pub width: u32,
    pub height: u32,
    pub present_mode: PresentMode,
    pub alpha_mode: AlphaMode,
}

impl<F> SurfaceConfig<F> {
    /// The configuration of a fresh surface: a render target of the given
    /// format and extent, locked to the display's refresh.
    pub open spec fn initial_spec(format: F, size: PhysicalSize) -> SurfaceConfig<F> {
        SurfaceConfig {
            usage: TextureUsage::RenderAttachment,
            format,
            width: size.width,
            height: size.height,
            present_mode: PresentMode::Fifo,
            alpha_mode: AlphaMode::Auto,
        }
    }

    /// This configuration with another extent and everything else kept.
    pub open spec fn with_size(self, size: PhysicalSize) -> SurfaceConfig<F> {
        SurfaceConfig { width: size.width, height: size.height, ..self }
    }

    /// Whether the configuration covers exactly `size`.
    pub open spec fn covers(self, size: PhysicalSize) -> bool {
        self.width == size.width && self.height == size.height
    }
}

impl<F: Copy> SurfaceConfig<F> {
    /// Builds the first configuration from the formats that the adapter
    /// supports for the surface, in the adapter's order of preference:
    /// the first of them is taken.
    pub fn initial(formats: &Vec<F>, size: PhysicalSize) -> (config: SurfaceConfig<F>)
        requires
            formats@.len() > 0,
        ensures
            config == SurfaceConfig::initial_spec(formats@[0], size),
    {
        SurfaceConfig {
            usage: TextureUsage::RenderAttachment,
            format: formats[0],
            width: size.width,
            height: size.height,
            present_mode: PresentMode::Fifo,
            alpha_mode: AlphaMode::Auto,
        }
    }
}

} // verus!
