//! The configuration of the GPU presentation surface.

use vstd::prelude::*;

verus! {

/// Pixel formats the presentation surface can be created with.
#[derive(Clone, Copy, Debug, PartialEq, Eq, Structural)]
pub enum PixelFormat {
    Rgba8UnormSrgb,
    Bgra8UnormSrgb,
}

/// How finished frames are queued for display.
#[derive(Clone, Copy, Debug, PartialEq, Eq, Structural)]
pub enum PresentMode {
    /// Frames are shown at once, possibly with tearing.
    Immediate,
    /// The newest finished frame replaces a waiting one: no tearing, little
    /// added latency.
    Mailbox,
    /// Frames are shown in order, one per vertical blank.
    Fifo,
}

/// What the presentation surface was last configured with.
#[derive(Clone, Copy, Debug, PartialEq, Eq, Structural)]
pub struct SurfaceConfig {
    pub width: u32,
    pub height: u32,
    pub format: PixelFormat,
    pub present_mode: PresentMode,
}

/// The format every surface of this loop is created with.
pub const SURFACE_FORMAT: PixelFormat = PixelFormat::Rgba8UnormSrgb;

/// The present mode every surface of this loop is created with: newest frame
/// first, without tearing.
pub const SURFACE_PRESENT_MODE: PresentMode = PresentMode::Mailbox;

pub open spec fn config_for_size(width: u32, height: u32) -> SurfaceConfig {
    SurfaceConfig { width, height, format: SURFACE_FORMAT, present_mode: SURFACE_PRESENT_MODE }
}

impl SurfaceConfig {
    /// The configuration for a surface of the given physical size.
    pub fn for_size(width: u32, height: u32) -> (r: SurfaceConfig)
        ensures
            r == config_for_size(width, height),
    {
        SurfaceConfig { width, height, format: SURFACE_FORMAT, present_mode: SURFACE_PRESENT_MODE }
    }

    /// Whether this configuration describes a surface of the given size.
    pub fn matches_size(&self, width: u32, height: u32) -> (r: bool)
        ensures
            r == (self.width == width && self.height == height),
    {
        self.width == width && self.height == height
    }
}

} // verus!
