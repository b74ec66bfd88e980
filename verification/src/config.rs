//! Capture settings consumed by the streaming core.

use vstd::prelude::*;

verus! {

/// Settings of one capture pipeline. The values are taken as given: whoever
/// loads them is responsible for their validation.
#[derive(Debug, Clone, Copy)]
pub struct CaptureConfig {
    /// Target frame rate, in frames per second.
    pub fps: u32,
    /// Encode quality, 1 (worst) to 100 (best).
    pub quality: u8,
    /// Expected surface width in pixels.
    pub width: u32,
    /// Expected surface height in pixels.
    pub height: u32,
}

impl Default for CaptureConfig {
    /// 30 frames per second at quality 80 on a 1920x1080 surface.
    fn default() -> (config: Self)
        ensures
            config.fps == 30,
            config.quality == 80,
            config.width == 1920,
            config.height == 1080,
    {
        CaptureConfig { fps: 30, quality: 80, width: 1920, height: 1080 }
    }
}

} // verus!
