//! Post-effect selection state.
//!
//! Each frame is first rendered into an offscreen capture target and then
//! composited onto the real surface through the currently selected
//! post-effect program.  The offscreen colour/depth resources themselves
//! belong to the graphics layer (they are sized to the framebuffer and
//! recreated on resize); the library owns the one piece of runtime-mutable
//! state, the selected post-shader index, and validates it at draw time.

use vstd::prelude::*;

verus! {

/// Runtime-mutable post-effect state: which post-shader composites the frame.
#[derive(Clone, Copy, Debug, PartialEq, Eq, Structural)]
pub struct PostEffect {
    /// Index into the registry's ordered post-shader list.
    pub current_shader: usize,
}

impl PostEffect {
    /// Fresh post-effect state, selecting the first post shader.
    pub fn new() -> (r: PostEffect)
        ensures
            r.current_shader == 0,
    {
        PostEffect { current_shader: 0 }
    }
}

} // verus!
