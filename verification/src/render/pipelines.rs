//! The choices a render pipeline is set up with.

use vstd::prelude::*;

verus! {

/// How meshes are drawn.
#[derive(Clone, Copy, Debug, PartialEq, Eq, Structural)]
pub enum RenderMode {
    /// Filled triangles.
    Default,
    /// The edges only.
    WireFrame,
}

/// Where a render ends up.
#[derive(Clone, Copy, Debug, PartialEq, Eq, Structural)]
pub enum RenderTarget {
    /// The window.
    SwapChain,
    /// A texture that can be read back.
    RenderTexture,
}

} // verus!
