//! A minimal real-time rendering core: camera and projection math over exact
//! rational scalars, a shader registry, post-effect selection, procedural mesh
//! generation and per-frame draw planning.
//!
//! The library is the platform-independent heart of a renderer.  Everything
//! that needs a GPU, a window, a clock or transcendental float math (the
//! display surface, text rasterisation, the UI toolkit, `sin`/`cos`/`tan`)
//! lives with the surrounding application, which feeds this library plain
//! values and executes the frame plans it returns.

pub mod math;
pub mod mesh;
pub mod posteffect;
pub mod renderer;
pub mod shader;
pub mod types;
