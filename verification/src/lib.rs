use vstd::prelude::*;

pub mod key;
pub mod keyboard;
pub mod render_surface;

verus! {

/// Pixel dimensions of the render target, as published to the scene each frame.
#[derive(Clone, Copy, Debug, PartialEq, Eq, Structural)]
pub struct ScreenDim {
    pub width: u32,
    pub height: u32,
}

} // verus!
