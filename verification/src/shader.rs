//! The shader registry: named world-shader programs and an ordered list of
//! post-effect programs.
//!
//! Programs are compiled and linked by the graphics layer once at startup;
//! the registry holds their handles and resolves them by name (world shaders,
//! unique keys) or by index (post-effect shaders) at draw time.  Looking up an
//! unknown name or an out-of-range index is a fatal configuration error,
//! reported as a [`RenderError`], never skipped.

use vstd::prelude::*;
use crate::types::RenderError;

verus! {

/// Registry of named world-shader program handles and ordered post-effect
/// program handles.  Immutable after construction.
pub struct Shaders {
    /// The registered world-shader names, parallel to `programs`.
    pub names: Vec<String>,
    /// The world-shader program handles, parallel to `names`.
    pub programs: Vec<u64>,
    /// The ordered post-effect programs, resolved by index.
    pub post_shaders: Vec<u64>,
}

impl Shaders {
    /// The registered world-shader names, in registration order.
    pub open spec fn world_names(self) -> Seq<Seq<char>> {
        self.names@.map_values(|s: String| s@)
    }

    /// The registered world-shader program handles, in registration order.
    pub open spec fn world_programs(self) -> Seq<u64> {
        self.programs@
    }

    /// Well-formedness: one program per name, and names are unique keys.
    pub open spec fn wf(self) -> bool {
        &&& self.world_names().len() == self.world_programs().len()
        &&& forall|i: int, j: int|
            0 <= i < self.world_names().len() && 0 <= j < self.world_names().len()
                && self.world_names()[i] == self.world_names()[j] ==> i == j
    }

    /// Whether `name` is a registered world shader.
    pub open spec fn has_shader(self, name: Seq<char>) -> bool {
        exists|i: int| 0 <= i < self.world_names().len() && self.world_names()[i] == name
    }

    /// The index at which `name` is registered.
    pub open spec fn shader_index(self, name: Seq<char>) -> int {
        choose|i: int| 0 <= i < self.world_names().len() && self.world_names()[i] == name
    }

    /// The program handle registered under `name`.
    pub open spec fn shader_of(self, name: Seq<char>) -> u64 {
        self.world_programs()[self.shader_index(name)]
    }

    /// Build the registry from parallel name/program lists and the ordered
    /// post-effect programs.  Names must be unique keys, one program each.
    pub fn new(names: Vec<String>, programs: Vec<u64>, post_shaders: Vec<u64>) -> (r: Shaders)
        requires
            names@.len() == programs@.len(),
            forall|i: int, j: int|
                0 <= i < names@.len() && 0 <= j < names@.len() && names@[i]@ == names@[j]@
                    ==> i == j,
        ensures
            r.wf(),
            r.world_names() == names@.map_values(|s: String| s@),
            r.world_programs() == programs@,
            r.post_shaders == post_shaders,
    {
        Shaders { names, programs, post_shaders }
    }

    /// Resolve a world shader by name: its handle, or [`RenderError::ShaderNotFound`]
    /// if and only if the name was never registered.  A registered name
    /// resolves to the same handle on every call.
    pub fn get_shader(&self, name: &String) -> (r: Result<u64, RenderError>)
        requires
            self.wf(),
        ensures
            r == if self.has_shader(name@) {
                Ok::<u64, RenderError>(self.shader_of(name@))
            } else {
                Err::<u64, RenderError>(RenderError::ShaderNotFound)
            },
    {
        let n = self.names.len();
        for j in 0..n
            invariant
                n == self.names@.len(),
                self.wf(),
                forall|i: int| 0 <= i < j ==> self.world_names()[i] != name@,
        {
            if self.names[j] == *name {
                proof {
                    assert(self.world_names()[j as int] == name@);
                    let ghost k = self.shader_index(name@);
                    assert(0 <= k < self.world_names().len() && self.world_names()[k] == name@);
                    assert(k == j);
                }
                return Ok(self.programs[j]);
            }
        }
        Err(RenderError::ShaderNotFound)
    }

    /// Resolve a post-effect program by index: its handle, or
    /// [`RenderError::PostIndexOutOfRange`] if and only if the index is past
    /// the end of the post-shader list.
    pub fn get_post_shader(&self, index: usize) -> (r: Result<u64, RenderError>)
        ensures
            r == if index < self.post_shaders@.len() {
                Ok::<u64, RenderError>(self.post_shaders@[index as int])
            } else {
                Err::<u64, RenderError>(RenderError::PostIndexOutOfRange)
            },
    {
        if index < self.post_shaders.len() {
            Ok(self.post_shaders[index])
        } else {
            Err(RenderError::PostIndexOutOfRange)
        }
    }
}

} // verus!
