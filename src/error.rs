//! Errors of the render core.
use vstd::prelude::*;
use crate::registry::ResourceKey;

verus! {

/// Why presenting a frame failed; the frame is dropped and the next one
/// starts afresh.
#[derive(Clone, Copy, PartialEq, Eq, Debug)]
pub enum SurfaceError {
    Timeout,
    Outdated,
    Lost,
    OutOfMemory,
    /// Any other failure the presentation engine reports.
    Other,
}

#[derive(Clone, Copy, PartialEq, Eq, Debug)]
pub enum RenderError {
    /// A binding needs an allocation that the registry does not hold.
    MissingResource(ResourceKey),
    /// A surface size outside `1..=MAX_TEXTURE_DIMENSION` on either side.
    InvalidSize { width: u32, height: u32 },
    /// A debug-texture index past the end of the inspectable list.
    NoSuchDebugTexture(usize),
    /// The device has no handles left to issue.
    OutOfHandles,
}

} // verus!
