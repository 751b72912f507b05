//! Core data types of the renderer: vectors, vertices, transforms, render and
//! text items, camera state and per-instance attributes.
//!
//! Per-entity update behaviour is a tagged enumeration of update kinds held in
//! an ordered list and applied once per tick, in order, by [`Entity::update`].

use vstd::prelude::*;
use crate::math::{Rat, sadd, lemma_mul_bound, lemma_mul_pos};

verus! {

/// A triple of rational scalars.
pub type Vector3 = (Rat, Rat, Rat);

/// A quadruple of rational scalars.
pub type Quaternion = (Rat, Rat, Rat, Rat);

/// One mesh vertex: position, normal and texture coordinate.
#[derive(Clone, Copy, Debug, PartialEq, Eq)]
pub struct Vertex {
    pub position: Vector3,
    pub normal: Vector3,
    pub texture: (Rat, Rat),
}

/// Magnitude cap on the components of a checked rational addition: `2^62`.
pub const RAT_CHK_MAX: i128 = 0x4000000000000000;

/// Both operands of a checked addition lie within [`RAT_CHK_MAX`], so the
/// exact sum stays representable.
pub open spec fn rat_add_ok(a: Rat, b: Rat) -> bool {
    &&& -RAT_CHK_MAX <= a.n <= RAT_CHK_MAX
    &&& -RAT_CHK_MAX <= a.d <= RAT_CHK_MAX
    &&& -RAT_CHK_MAX <= b.n <= RAT_CHK_MAX
    &&& -RAT_CHK_MAX <= b.d <= RAT_CHK_MAX
}

/// The representable exact sum of `a` and `b`; meaningful when
/// [`rat_add_ok`] holds.
pub open spec fn rat_add_val(a: Rat, b: Rat) -> Rat {
    Rat { n: (a.n * b.d + b.n * a.d) as i128, d: (a.d * b.d) as i128 }
}

/// Checked exact rational addition: the sum when both operands are within
/// [`RAT_CHK_MAX`], `None` otherwise.
pub fn rat_try_add(a: Rat, b: Rat) -> (r: Option<Rat>)
    ensures
        r is Some <==> rat_add_ok(a, b),
        r is Some ==> r->Some_0 == rat_add_val(a, b),
        r is Some && a.wf() && b.wf() ==> r->Some_0.wf() && r->Some_0@ == sadd(a@, b@),
{
    if -RAT_CHK_MAX <= a.n && a.n <= RAT_CHK_MAX && -RAT_CHK_MAX <= a.d && a.d <= RAT_CHK_MAX
        && -RAT_CHK_MAX <= b.n && b.n <= RAT_CHK_MAX && -RAT_CHK_MAX <= b.d && b.d <= RAT_CHK_MAX {
        proof {
            lemma_mul_bound(a.n as int, b.d as int, RAT_CHK_MAX as int, RAT_CHK_MAX as int);
            lemma_mul_bound(b.n as int, a.d as int, RAT_CHK_MAX as int, RAT_CHK_MAX as int);
            lemma_mul_bound(a.d as int, b.d as int, RAT_CHK_MAX as int, RAT_CHK_MAX as int);
            if a.wf() && b.wf() {
                lemma_mul_pos(a.d as int, b.d as int);
            }
        }
        Some(Rat { n: a.n * b.d + b.n * a.d, d: a.d * b.d })
    } else {
        None
    }
}

/// Checked componentwise translation of a vector; a component on which the
/// addition would overflow is left unchanged.
pub open spec fn vec3_translated(v: Vector3, d: Vector3) -> Vector3 {
    (
        if rat_add_ok(v.0, d.0) { rat_add_val(v.0, d.0) } else { v.0 },
        if rat_add_ok(v.1, d.1) { rat_add_val(v.1, d.1) } else { v.1 },
        if rat_add_ok(v.2, d.2) { rat_add_val(v.2, d.2) } else { v.2 },
    )
}

/// Translate `v` by `d`, componentwise; see [`vec3_translated`].
pub fn vec3_translate(v: Vector3, d: Vector3) -> (r: Vector3)
    ensures
        r == vec3_translated(v, d),
{
    let x = match rat_try_add(v.0, d.0) {
        Some(s) => s,
        None => v.0,
    };
    let y = match rat_try_add(v.1, d.1) {
        Some(s) => s,
        None => v.1,
    };
    let z = match rat_try_add(v.2, d.2) {
        Some(s) => s,
        None => v.2,
    };
    (x, y, z)
}

/// One update behaviour of a [`Transform`], applied once per tick.
#[derive(Clone, Copy, Debug, PartialEq, Eq)]
pub enum TransformUpdate {
    /// Replace the position.
    SetPos(Vector3),
    /// Replace the rotation.
    SetRot(Quaternion),
    /// Replace the scale.
    SetScale(Vector3),
    /// Move the position by an offset (checked; an overflowing component is
    /// left as it was).
    Translate(Vector3),
}

/// Position, rotation and scale of one drawn instance, with its ordered
/// update behaviours.
pub struct Transform {
    pub pos: Vector3,
    pub rot: Quaternion,
    pub scale: Vector3,
    pub update_fn: Vec<TransformUpdate>,
}

/// The effect of a single update on a transform.
pub open spec fn apply_transform_update(t: Transform, u: TransformUpdate) -> Transform {
    match u {
        TransformUpdate::SetPos(p) => Transform { pos: p, ..t },
        TransformUpdate::SetRot(q) => Transform { rot: q, ..t },
        TransformUpdate::SetScale(s) => Transform { scale: s, ..t },
        TransformUpdate::Translate(d) => Transform { pos: vec3_translated(t.pos, d), ..t },
    }
}

/// The first `n` updates of `us` applied to `t`, in order.
pub open spec fn apply_transform_upto(t: Transform, us: Seq<TransformUpdate>, n: int) -> Transform
    decreases n,
{
    if n <= 0 {
        t
    } else {
        apply_transform_update(apply_transform_upto(t, us, n - 1), us[n - 1])
    }
}

/// All updates of `us` applied to `t`, in order.
pub open spec fn apply_transform_updates(t: Transform, us: Seq<TransformUpdate>) -> Transform {
    apply_transform_upto(t, us, us.len() as int)
}

/// A mesh, the name of the shader that draws it, and one transform per drawn
/// instance.
pub struct RenderItem {
    pub vertices: Vec<Vertex>,
    pub shader_name: String,
    pub instance_transforms: Vec<Transform>,
}

/// The mutable state of a [`TextItem`], as an abstract value.
pub struct TextState {
    pub text: Seq<char>,
    pub color: (Rat, Rat, Rat, Rat),
    pub pos: Vector3,
    pub scale: Vector3,
}

/// One update behaviour of a [`TextItem`], applied once per tick.
#[derive(Debug)]
pub enum TextUpdate {
    /// Replace the text.
    SetText(String),
    /// Replace the colour.
    SetColor((Rat, Rat, Rat, Rat)),
    /// Replace the position.
    SetPos(Vector3),
    /// Replace the scale.
    SetScale(Vector3),
    /// Move the position by an offset (checked; an overflowing component is
    /// left as it was).
    Translate(Vector3),
}

/// A string to draw on screen, with colour, position, scale and ordered
/// update behaviours.
pub struct TextItem {
    pub text: String,
    pub color: (Rat, Rat, Rat, Rat),
    pub pos: Vector3,
    pub scale: Vector3,
    pub update_fn: Vec<TextUpdate>,
}

impl TextItem {
    /// The mutable state of the item.
    pub open spec fn state(self) -> TextState {
        TextState { text: self.text@, color: self.color, pos: self.pos, scale: self.scale }
    }
}

/// The effect of a single update on a text item's state.
pub open spec fn apply_text_update(s: TextState, u: TextUpdate) -> TextState {
    match u {
        TextUpdate::SetText(t) => TextState { text: t@, ..s },
        TextUpdate::SetColor(c) => TextState { color: c, ..s },
        TextUpdate::SetPos(p) => TextState { pos: p, ..s },
        TextUpdate::SetScale(sc) => TextState { scale: sc, ..s },
        TextUpdate::Translate(d) => TextState { pos: vec3_translated(s.pos, d), ..s },
    }
}

/// The first `n` updates of `us` applied to `s`, in order.
pub open spec fn apply_text_upto(s: TextState, us: Seq<TextUpdate>, n: int) -> TextState
    decreases n,
{
    if n <= 0 {
        s
    } else {
        apply_text_update(apply_text_upto(s, us, n - 1), us[n - 1])
    }
}

/// All updates of `us` applied to `s`, in order.
pub open spec fn apply_text_updates(s: TextState, us: Seq<TextUpdate>) -> TextState {
    apply_text_upto(s, us, us.len() as int)
}

/// The fatal per-frame error kinds of the renderer.  Either aborts the frame:
/// a draw is never silently skipped, since that would desynchronise visual
/// state from application state.
#[derive(Clone, Copy, Debug, PartialEq, Eq, Structural)]
pub enum RenderError {
    /// A render item names a shader that the registry does not hold.
    ShaderNotFound,
    /// The selected post-effect index is outside the post-shader list.
    PostIndexOutOfRange,
}

/// An entity that is stepped once per tick by the frame driver.
pub trait Entity {
    /// Run every tick.
    fn update(&mut self);
}

impl Transform {
    /// Apply every queued update behaviour, in order.
    pub fn run_updates(&mut self)
        ensures
            *final(self) == apply_transform_updates(*old(self), old(self).update_fn@),
            final(self).update_fn == old(self).update_fn,
    {
        let ghost orig = *self;
        let n = self.update_fn.len();
        for i in 0..n
            invariant
                n == self.update_fn.len(),
                self.update_fn == orig.update_fn,
                *self == apply_transform_upto(orig, orig.update_fn@, i as int),
        {
            let u = self.update_fn[i];
            match u {
                TransformUpdate::SetPos(p) => {
                    self.pos = p;
                },
                TransformUpdate::SetRot(q) => {
                    self.rot = q;
                },
                TransformUpdate::SetScale(s) => {
                    self.scale = s;
                },
                TransformUpdate::Translate(d) => {
                    self.pos = vec3_translate(self.pos, d);
                },
            }
        }
    }
}

impl Entity for Transform {
    fn update(&mut self) {
        self.run_updates();
    }
}

impl TextItem {
    /// Apply every queued update behaviour, in order.
    pub fn run_updates(&mut self)
        ensures
            final(self).state() == apply_text_updates(old(self).state(), old(self).update_fn@),
            final(self).update_fn == old(self).update_fn,
    {
        let ghost orig = *self;
        let n = self.update_fn.len();
        for i in 0..n
            invariant
                n == self.update_fn.len(),
                self.update_fn == orig.update_fn,
                self.state() == apply_text_upto(orig.state(), orig.update_fn@, i as int),
        {
            match &self.update_fn[i] {
                TextUpdate::SetText(t) => {
                    let t2 = t.clone();
                    self.text = t2;
                },
                TextUpdate::SetColor(c) => {
                    self.color = *c;
                },
                TextUpdate::SetPos(p) => {
                    self.pos = *p;
                },
                TextUpdate::SetScale(sc) => {
                    self.scale = *sc;
                },
                TextUpdate::Translate(d) => {
                    self.pos = vec3_translate(self.pos, *d);
                },
            }
        }
    }
}

impl Entity for TextItem {
    fn update(&mut self) {
        self.run_updates();
    }
}

/// Camera position and Euler-like rotation (pitch, yaw, roll).  Only pitch
/// and yaw take part in the first-person view matrix; roll is a documented
/// limitation of the camera model and is never read.
#[derive(Clone, Copy, Debug, PartialEq, Eq)]
pub struct CamState {
    pub cam_pos: Vector3,
    pub cam_rot: Vector3,
}

/// Per-instance shader attributes, derived freshly from a [`Transform`] each
/// frame.
#[derive(Clone, Copy, Debug, PartialEq, Eq)]
pub struct Attr {
    pub world_position: Vector3,
    pub world_rotation: Quaternion,
    pub world_scale: Vector3,
}

/// The attribute record a transform contributes to its instance buffer.
pub open spec fn attr_of(t: Transform) -> Attr {
    Attr { world_position: t.pos, world_rotation: t.rot, world_scale: t.scale }
}

} // verus!
