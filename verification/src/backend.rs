//! Display backend handles.
//!
//! The window system and the GPU pipeline live in the application around
//! this crate; these types carry the plain state the application threads
//! through them.

use vstd::prelude::*;

verus! {

/// Window and input backend handle.
#[derive(Debug, Clone, Copy, PartialEq, Eq, Structural)]
pub struct WinitBackend {
    pub initialized: bool,
    pub width: u32,
    pub height: u32,
}

impl WinitBackend {
    pub fn new() -> (b: Self)
        ensures
            !b.initialized,
            b.width == 800,
            b.height == 600,
    {
        WinitBackend { initialized: false, width: 800, height: 600 }
    }

    /// Record the window size the application reports.
    pub fn resize(&mut self, width: u32, height: u32)
        ensures
            final(self).width == width,
            final(self).height == height,
            final(self).initialized == old(self).initialized,
    {
        self.width = width;
        self.height = height;
    }
}

/// GPU scene renderer handle; the GPU pipeline itself is the application's.
#[derive(Debug, Clone, Copy, PartialEq, Eq, Structural)]
pub struct WgpuRenderer {}

impl WgpuRenderer {
    pub fn new() -> (r: Self)
        ensures
            r == (WgpuRenderer {  }),
    {
        WgpuRenderer {  }
    }

    /// Present a frame. Drawing happens in the application's GPU pipeline;
    /// the handle itself keeps no state across frames.
    pub fn render(&mut self)
        ensures
            *final(self) == *old(self),
    {
    }
}

} // verus!
