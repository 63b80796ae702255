//! What the shell asks of the graphics system before the first frame: which
//! backends to offer, which adapter to prefer, and how the surface presents.

use vstd::prelude::*;
use wgpu::{CompositeAlphaMode, PowerPreference, PresentMode, TextureFormat};

verus! {

/// Frames that the presentation engine may hold in its queue.
pub const MAX_FRAMES_IN_FLIGHT: u32 = 2;

/// A set of graphics backends to look for an adapter in.
#[derive(Clone, Copy, Debug, PartialEq, Eq, Structural)]
pub enum BackendSet {
    /// The backends with first-tier support.
    Primary,
    /// The backends with second-tier support.
    Secondary,
}

/// The backends for a build: the secondary set while debugging, the primary
/// set in a release.
pub open spec fn backends_for(debug_build: bool) -> BackendSet {
    if debug_build {
        BackendSet::Secondary
    } else {
        BackendSet::Primary
    }
}

/// Selects the backends for a build.
pub fn select_backends(debug_build: bool) -> (backends: BackendSet)
    ensures
        backends == backends_for(debug_build),
{
    if debug_build {
        BackendSet::Secondary
    } else {
        BackendSet::Primary
    }
}

/// Where the limits come from that a device is asked for.
#[derive(Clone, Copy, Debug, PartialEq, Eq, Structural)]
pub enum DeviceLimits {
    /// The defaults of the graphics crate.
    Default,
    /// The defaults for older hardware.
    Downlevel,
    /// The defaults for older hardware that is reached through WebGL 2.
    DownlevelWebgl2,
    /// The best limits that the adapter reports for itself.
    Adapter,
}

/// One use that a texture is put to.
#[derive(Clone, Copy, Debug, PartialEq, Eq, Structural)]
pub enum TextureUse {
    CopySrc,
    CopyDst,
    TextureBinding,
    StorageBinding,
    RenderAttachment,
}

/// What the shell asks of an adapter.
#[derive(Clone, Copy, Debug, PartialEq, Eq)]
pub struct AdapterRequest {
    pub power_preference: PowerPreference,
    pub force_fallback_adapter: bool,
}

impl AdapterRequest {
    /// The request that the shell makes: the fastest adapter that can draw
    /// to the surface, and no software fallback.
    pub open spec fn preferred() -> AdapterRequest {
        AdapterRequest {
            power_preference: PowerPreference::HighPerformance,
            force_fallback_adapter: false,
        }
    }

    /// Builds the request that the shell makes.
    pub fn new() -> (request: AdapterRequest)
        ensures
            request == AdapterRequest::preferred(),
    {
        AdapterRequest {
            power_preference: PowerPreference::HighPerformance,
            force_fallback_adapter: false,
        }
    }
}

/// The size of the window in pixels.
#[derive(Clone, Copy, Debug, PartialEq, Eq)]
pub struct WindowSize {
    pub width: u32,
    pub height: u32,
}

/// How a surface presents: what its images are used for, their format and
/// size, when an image reaches the screen, how its alpha channel is
/// composited, and how many frames may wait.
#[derive(Clone, Copy, Debug, PartialEq, Eq)]
pub struct SurfaceConfiguration {
    pub usage: TextureUse,
    pub format: TextureFormat,
    pub width: u32,
    pub height: u32,
    pub present_mode: PresentMode,
    pub alpha_mode: CompositeAlphaMode,
    pub desired_maximum_frame_latency: u32,
}

impl SurfaceConfiguration {
    /// The configuration for a window: images to render to, of the
    /// window's size and in the given format, presented in step with the
    /// display and never skipped, alpha compositing left to the system, at
    /// most `MAX_FRAMES_IN_FLIGHT` frames waiting.
    pub open spec fn for_window(format: TextureFormat, size: WindowSize) -> SurfaceConfiguration {
        SurfaceConfiguration {
            usage: TextureUse::RenderAttachment,
            format,
            width: size.width,
            height: size.height,
            present_mode: PresentMode::Fifo,
            alpha_mode: CompositeAlphaMode::Auto,
            desired_maximum_frame_latency: MAX_FRAMES_IN_FLIGHT,
        }
    }

    /// Builds the configuration for a window.
    pub fn new(format: TextureFormat, size: WindowSize) -> (config: SurfaceConfiguration)
        ensures
            config == SurfaceConfiguration::for_window(format, size),
    {
        SurfaceConfiguration {
            usage: TextureUse::RenderAttachment,
            format,
            width: size.width,
            height: size.height,
            present_mode: PresentMode::Fifo,
            alpha_mode: CompositeAlphaMode::Auto,
            desired_maximum_frame_latency: MAX_FRAMES_IN_FLIGHT,
        }
    }
}

} // verus!
