//! The renderer core: camera matrices, selection state, and (per frame) the
//! draw plan.
//!
//! The [`Renderer`] owns the shader registry and the post-effect selection.
//! The graphics layer around it owns the display surface, text system, font
//! and UI toolkit; each tick it asks the renderer for a frame plan and then
//! executes the plan's steps against the GPU in the plan's order.

use vstd::prelude::*;
use crate::math::{
    Rat, SRat, Vec4, Mat4, s_int, sadd, ssub, smul, sdiv, sneg, seqv, slt, sfits, rat_add,
    rat_sub, rat_mul, rat_div, rat_neg, rat_int, sxform_x, sxform_y, sxform_z, sxform_w,
    lemma_rat_op_safe, lemma_sadd_fits, lemma_smul_fits, lemma_sdiv_fits, lemma_smul_comm,
    lemma_mul_pos, SVec4,
};
use crate::types::{
    CamState, RenderItem, TextItem, Transform, Attr, Vertex, RenderError, attr_of, Vector3,
};
use crate::shader::Shaders;
use crate::posteffect::PostEffect;

verus! {

/// Largest magnitude the numerators and denominators of the scalars handed
/// to the matrix builders may reach; keeps every intermediate product of the
/// exact arithmetic representable.
pub const MAT_IN_MAX: i128 = 8192;

/// Sines and cosines of the camera's pitch (`cam_rot.0`) and yaw
/// (`cam_rot.1`), evaluated by the caller: trigonometry is transcendental and
/// lives outside the library.  Roll (`cam_rot.2`) takes no part in the
/// first-person camera model and has no entry here.
#[derive(Clone, Copy, Debug, PartialEq, Eq, Structural)]
pub struct CamTrig {
    pub sin_pitch: Rat,
    pub cos_pitch: Rat,
    pub sin_yaw: Rat,
    pub cos_yaw: Rat,
}

impl CamTrig {
    /// All four scalars are well-formed and within [`MAT_IN_MAX`].
    pub open spec fn wf(self) -> bool {
        &&& self.sin_pitch.fits(MAT_IN_MAX as int)
        &&& self.cos_pitch.fits(MAT_IN_MAX as int)
        &&& self.sin_yaw.fits(MAT_IN_MAX as int)
        &&& self.cos_yaw.fits(MAT_IN_MAX as int)
    }
}

/// Half the frustum height at the near plane: `znear * tan_half_fov`.
pub open spec fn proj_ymax(t: SRat, zn: SRat) -> SRat {
    smul(zn, t)
}

/// Frustum width at the near plane: `xmax - xmin` with `xmax = ymax * aspect`
/// and `xmin = -ymax * aspect`.
pub open spec fn proj_width(t: SRat, asp: SRat, zn: SRat) -> SRat {
    ssub(smul(proj_ymax(t, zn), asp), smul(sneg(proj_ymax(t, zn)), asp))
}

/// Frustum height at the near plane: `ymax - ymin` with `ymin = -ymax`.
pub open spec fn proj_height(t: SRat, zn: SRat) -> SRat {
    ssub(proj_ymax(t, zn), sneg(proj_ymax(t, zn)))
}

/// First diagonal entry of the projection: `2 * znear / width`.
pub open spec fn proj_w(t: SRat, asp: SRat, zn: SRat) -> SRat {
    sdiv(smul(s_int(2), zn), proj_width(t, asp, zn))
}

/// Second diagonal entry of the projection: `2 * znear / height`.
pub open spec fn proj_h(t: SRat, zn: SRat) -> SRat {
    sdiv(smul(s_int(2), zn), proj_height(t, zn))
}

/// Depth entry of the projection: `-(zfar + znear) / (zfar - znear)`.
pub open spec fn proj_q(zn: SRat, zf: SRat) -> SRat {
    sneg(sdiv(sadd(zf, zn), ssub(zf, zn)))
}

/// Depth translation entry of the projection:
/// `-2 * zfar * znear / (zfar - znear)`.
pub open spec fn proj_qn(zn: SRat, zf: SRat) -> SRat {
    sneg(sdiv(smul(s_int(2), smul(zf, zn)), ssub(zf, zn)))
}

/// The sixteen entries of a symmetric-frustum perspective projection built
/// from `tan_half_fov`, `aspect`, `znear` and `zfar` (column-major; the
/// non-trivial entries sit at `c0.x`, `c1.y`, `c2.z`, `c2.w` and `c3.z`).
pub open spec fn persp_proj_entries(m: Mat4, t: Rat, asp: Rat, zn: Rat, zf: Rat) -> bool {
    &&& m.c0.x@ == proj_w(t@, asp@, zn@)
    &&& m.c0.y@ == s_int(0)
    &&& m.c0.z@ == s_int(0)
    &&& m.c0.w@ == s_int(0)
    &&& m.c1.x@ == s_int(0)
    &&& m.c1.y@ == proj_h(t@, zn@)
    &&& m.c1.z@ == s_int(0)
    &&& m.c1.w@ == s_int(0)
    &&& m.c2.x@ == s_int(0)
    &&& m.c2.y@ == s_int(0)
    &&& m.c2.z@ == proj_q(zn@, zf@)
    &&& m.c2.w@ == s_int(-1)
    &&& m.c3.x@ == s_int(0)
    &&& m.c3.y@ == s_int(0)
    &&& m.c3.z@ == proj_qn(zn@, zf@)
    &&& m.c3.w@ == s_int(0)
}

/// Dot product of a basis axis `(ax, ay, az)` with a position `(px, py, pz)`.
pub open spec fn sdot3(ax: SRat, ay: SRat, az: SRat, px: SRat, py: SRat, pz: SRat) -> SRat {
    sadd(sadd(smul(ax, px), smul(ay, py)), smul(az, pz))
}

/// Dot product of the camera's right axis `(cos_yaw, 0, -sin_yaw)` with the
/// camera position.
pub open spec fn xaxis_dot(tr: CamTrig, cam: CamState) -> SRat {
    sdot3(
        tr.cos_yaw@,
        s_int(0),
        sneg(tr.sin_yaw@),
        cam.cam_pos.0@,
        cam.cam_pos.1@,
        cam.cam_pos.2@,
    )
}

/// Dot product of the camera's up axis
/// `(sin_yaw * sin_pitch, cos_pitch, cos_yaw * sin_pitch)` with the camera
/// position.
pub open spec fn yaxis_dot(tr: CamTrig, cam: CamState) -> SRat {
    sdot3(
        smul(tr.sin_yaw@, tr.sin_pitch@),
        tr.cos_pitch@,
        smul(tr.cos_yaw@, tr.sin_pitch@),
        cam.cam_pos.0@,
        cam.cam_pos.1@,
        cam.cam_pos.2@,
    )
}

/// Dot product of the camera's forward axis
/// `(sin_yaw * cos_pitch, -sin_pitch, cos_pitch * cos_yaw)` with the camera
/// position.
pub open spec fn zaxis_dot(tr: CamTrig, cam: CamState) -> SRat {
    sdot3(
        smul(tr.sin_yaw@, tr.cos_pitch@),
        sneg(tr.sin_pitch@),
        smul(tr.cos_pitch@, tr.cos_yaw@),
        cam.cam_pos.0@,
        cam.cam_pos.1@,
        cam.cam_pos.2@,
    )
}

/// The sixteen entries of the first-person view matrix: the rotation basis in
/// the upper block and the negated axis/position dot products as translation,
/// so the camera's own position lands on the origin of view space.
pub open spec fn fp_view_entries(m: Mat4, tr: CamTrig, cam: CamState) -> bool {
    &&& m.c0.x == tr.cos_yaw
    &&& m.c0.y@ == smul(tr.sin_yaw@, tr.sin_pitch@)
    &&& m.c0.z@ == smul(tr.sin_yaw@, tr.cos_pitch@)
    &&& m.c0.w@ == s_int(0)
    &&& m.c1.x@ == s_int(0)
    &&& m.c1.y == tr.cos_pitch
    &&& m.c1.z@ == sneg(tr.sin_pitch@)
    &&& m.c1.w@ == s_int(0)
    &&& m.c2.x@ == sneg(tr.sin_yaw@)
    &&& m.c2.y@ == smul(tr.cos_yaw@, tr.sin_pitch@)
    &&& m.c2.z@ == smul(tr.cos_pitch@, tr.cos_yaw@)
    &&& m.c2.w@ == s_int(0)
    &&& m.c3.x@ == sneg(xaxis_dot(tr, cam))
    &&& m.c3.y@ == sneg(yaxis_dot(tr, cam))
    &&& m.c3.z@ == sneg(zaxis_dot(tr, cam))
    &&& m.c3.w@ == s_int(1)
}

/// Exact dot product of a basis axis and a position, as rationals.
fn rat_dot3(ax: Rat, ay: Rat, az: Rat, px: Rat, py: Rat, pz: Rat) -> (r: Rat)
    requires
        sfits(ax@, 0x4000000),
        sfits(ay@, 0x4000000),
        sfits(az@, 0x4000000),
        sfits(px@, MAT_IN_MAX as int),
        sfits(py@, MAT_IN_MAX as int),
        sfits(pz@, MAT_IN_MAX as int),
    ensures
        r@ == sdot3(ax@, ay@, az@, px@, py@, pz@),
        r.wf(),
        sfits(r@, 0x800000000000000000000000000000),
{
    proof {
        lemma_rat_op_safe(ax, px, 0x4000000, 0x2000);
        lemma_rat_op_safe(ay, py, 0x4000000, 0x2000);
        lemma_rat_op_safe(az, pz, 0x4000000, 0x2000);
    }
    let t1 = rat_mul(ax, px);
    let t2 = rat_mul(ay, py);
    let t3 = rat_mul(az, pz);
    proof {
        lemma_smul_fits(ax@, px@, 0x4000000, 0x2000);
        lemma_smul_fits(ay@, py@, 0x4000000, 0x2000);
        lemma_smul_fits(az@, pz@, 0x4000000, 0x2000);
        lemma_rat_op_safe(t1, t2, 0x8000000000, 0x8000000000);
    }
    let s12 = rat_add(t1, t2);
    proof {
        lemma_sadd_fits(t1@, t2@, 0x8000000000, 0x8000000000);
        lemma_rat_op_safe(s12, t3, 0x80000000000000000000, 0x8000000000);
    }
    let r = rat_add(s12, t3);
    proof {
        lemma_sadd_fits(s12@, t3@, 0x80000000000000000000, 0x8000000000);
    }
    r
}

/// Renderer state that the frame plans are built from: the shader registry
/// and the post-effect selection.  The display surface, text system, font
/// and UI context are the graphics layer's; it executes the plans.
pub struct Renderer {
    /// The registry of world and post-effect shader programs.
    pub shaders: Shaders,
    /// The post-effect selection state.
    pub post_effect: PostEffect,
}

impl Renderer {
    /// The registry is well-formed.
    pub open spec fn wf(self) -> bool {
        self.shaders.wf()
    }

    /// A renderer over an already-built shader registry, with the first
    /// post effect selected.
    pub fn new(shaders: Shaders) -> (r: Renderer)
        requires
            shaders.wf(),
        ensures
            r.wf(),
            r.shaders == shaders,
            r.post_effect.current_shader == 0,
    {
        Renderer { shaders, post_effect: PostEffect::new() }
    }

    /// Select the post-effect used by the composite step of later frames.
    /// Succeeds exactly on indices inside the post-shader list; an
    /// out-of-range index is refused and changes nothing.
    pub fn select_post_effect(&mut self, index: usize) -> (r: Result<(), crate::types::RenderError>)
        ensures
            final(self).shaders == old(self).shaders,
            index < old(self).shaders.post_shaders@.len() ==> {
                &&& r is Ok
                &&& final(self).post_effect.current_shader == index
            },
            index >= old(self).shaders.post_shaders@.len() ==> {
                &&& r == Err::<(), crate::types::RenderError>(
                    crate::types::RenderError::PostIndexOutOfRange,
                )
                &&& *final(self) == *old(self)
            },
    {
        if index < self.shaders.post_shaders.len() {
            self.post_effect.current_shader = index;
            Ok(())
        } else {
            Err(crate::types::RenderError::PostIndexOutOfRange)
        }
    }

    /// The symmetric-frustum perspective projection matrix for the given
    /// tangent of half the vertical field of view, aspect ratio and depth
    /// range.  An angle-based caller evaluates `tan(fov * pi / 360)` first;
    /// that step is transcendental and is the caller's, everything after it
    /// is exact here.  Degenerate frusta
    /// (`zfar <= znear`, `aspect <= 0`) are excluded: the division they
    /// make undefined is the caller's validation duty.
    pub fn build_persp_proj_mat(tan_half_fov: Rat, aspect: Rat, znear: Rat, zfar: Rat) -> (m: Mat4)
        requires
            tan_half_fov.fits(MAT_IN_MAX as int),
            aspect.fits(MAT_IN_MAX as int),
            znear.fits(MAT_IN_MAX as int),
            zfar.fits(MAT_IN_MAX as int),
            0 < tan_half_fov.n,
            0 < aspect.n,
            0 < znear.n,
            slt(znear@, zfar@),
        ensures
            m.wf(),
            persp_proj_entries(m, tan_half_fov, aspect, znear, zfar),
    {
        proof {
            lemma_rat_op_safe(znear, tan_half_fov, 0x2000, 0x2000);
        }
        let ymax = rat_mul(znear, tan_half_fov);
        proof {
            lemma_smul_fits(znear@, tan_half_fov@, 0x2000, 0x2000);
        }
        let ymin = rat_neg(ymax);
        proof {
            lemma_rat_op_safe(ymax, aspect, 0x4000000, 0x2000);
            lemma_rat_op_safe(ymin, aspect, 0x4000000, 0x2000);
        }
        let xmax = rat_mul(ymax, aspect);
        let xmin = rat_mul(ymin, aspect);
        proof {
            lemma_smul_fits(ymax@, aspect@, 0x4000000, 0x2000);
            lemma_smul_fits(ymin@, aspect@, 0x4000000, 0x2000);
            lemma_rat_op_safe(xmax, xmin, 0x8000000000, 0x8000000000);
        }
        let width = rat_sub(xmax, xmin);
        proof {
            lemma_sadd_fits(xmax@, xmin@, 0x8000000000, 0x8000000000);
            lemma_rat_op_safe(ymax, ymin, 0x4000000, 0x4000000);
        }
        let height = rat_sub(ymax, ymin);
        proof {
            lemma_sadd_fits(ymax@, ymin@, 0x4000000, 0x4000000);
            lemma_rat_op_safe(zfar, znear, 0x2000, 0x2000);
        }
        let depth = rat_sub(zfar, znear);
        let sum_fz = rat_add(zfar, znear);
        proof {
            lemma_sadd_fits(zfar@, znear@, 0x2000, 0x2000);
        }
        let two = rat_int(2);
        proof {
            lemma_rat_op_safe(two, znear, 2, 0x2000);
        }
        let two_zn = rat_mul(two, znear);
        proof {
            lemma_smul_fits(two@, znear@, 2, 0x2000);
            // zfar - znear has a positive numerator because znear < zfar.
            assert(0 < depth.n);
            lemma_rat_op_safe(sum_fz, depth, 0x8000000, 0x8000000);
        }
        let q_div = rat_div(sum_fz, depth);
        proof {
            lemma_sdiv_fits(sum_fz@, depth@, 0x8000000, 0x8000000);
        }
        let q = rat_neg(q_div);
        proof {
            lemma_rat_op_safe(zfar, znear, 0x2000, 0x2000);
        }
        let fz = rat_mul(zfar, znear);
        proof {
            lemma_smul_fits(zfar@, znear@, 0x2000, 0x2000);
            lemma_rat_op_safe(two, fz, 2, 0x4000000);
        }
        let qn_num = rat_mul(two, fz);
        proof {
            lemma_smul_fits(two@, fz@, 2, 0x4000000);
            lemma_rat_op_safe(qn_num, depth, 0x8000000, 0x8000000);
        }
        let qn_div = rat_div(qn_num, depth);
        proof {
            lemma_sdiv_fits(qn_num@, depth@, 0x8000000, 0x8000000);
        }
        let qn = rat_neg(qn_div);
        proof {
            // The frustum width has a positive numerator: it is twice
            // xmax.n * xmax.d, and xmax = znear * tan_half_fov * aspect is a
            // product of positives.
            lemma_mul_pos(znear.n as int, tan_half_fov.n as int);
            lemma_mul_pos(ymax.n as int, aspect.n as int);
            lemma_mul_pos(xmax.n as int, xmax.d as int);
            assert(width.n == 2 * (xmax.n * xmax.d)) by (nonlinear_arith)
                requires
                    width.n == xmax.n * xmin.d - xmin.n * xmax.d,
                    xmin.n == ymin.n * aspect.n,
                    ymin.n == -ymax.n,
                    xmax.n == ymax.n * aspect.n,
                    xmin.d == ymin.d * aspect.d,
                    xmax.d == ymax.d * aspect.d,
                    ymin.d == ymax.d;
            assert(0 < width.n);
            lemma_rat_op_safe(two_zn, width, 0x4000, 0x80000000000000000000);
            // Likewise the frustum height: twice ymax.n * ymax.d.
            lemma_mul_pos(ymax.n as int, ymax.d as int);
            assert(height.n == 2 * (ymax.n * ymax.d)) by (nonlinear_arith)
                requires
                    height.n == ymax.n * ymin.d - ymin.n * ymax.d,
                    ymin.n == -ymax.n,
                    ymin.d == ymax.d;
            assert(0 < height.n);
            lemma_rat_op_safe(two_zn, height, 0x4000, 0x20000000000000);
        }
        let w = rat_div(two_zn, width);
        let h = rat_div(two_zn, height);
        let zero = rat_int(0);
        let neg_one = rat_int(-1);
        Mat4 {
            c0: Vec4 { x: w, y: zero, z: zero, w: zero },
            c1: Vec4 { x: zero, y: h, z: zero, w: zero },
            c2: Vec4 { x: zero, y: zero, z: q, w: neg_one },
            c3: Vec4 { x: zero, y: zero, z: qn, w: zero },
        }
    }

    /// The first-person view matrix: basis axes derived from yaw and pitch,
    /// translation the negated dot products of each axis with the camera
    /// position.  Roll is intentionally unused, a documented limitation of
    /// the camera model.
    pub fn build_fp_view_matrix(cam_state: &CamState, trig: &CamTrig) -> (m: Mat4)
        requires
            trig.wf(),
            cam_state.cam_pos.0.fits(MAT_IN_MAX as int),
            cam_state.cam_pos.1.fits(MAT_IN_MAX as int),
            cam_state.cam_pos.2.fits(MAT_IN_MAX as int),
        ensures
            m.wf(),
            fp_view_entries(m, *trig, *cam_state),
    {
        let sy = trig.sin_yaw;
        let cy = trig.cos_yaw;
        let sp = trig.sin_pitch;
        let cp = trig.cos_pitch;
        let zero = rat_int(0);
        let one = rat_int(1);
        proof {
            lemma_rat_op_safe(sy, sp, 0x2000, 0x2000);
            lemma_rat_op_safe(sy, cp, 0x2000, 0x2000);
            lemma_rat_op_safe(cy, sp, 0x2000, 0x2000);
            lemma_rat_op_safe(cp, cy, 0x2000, 0x2000);
        }
        let y0 = rat_mul(sy, sp);
        let z0 = rat_mul(sy, cp);
        let x2 = rat_neg(sy);
        let y2 = rat_mul(cy, sp);
        let z2 = rat_mul(cp, cy);
        let z1 = rat_neg(sp);
        proof {
            lemma_smul_fits(sy@, sp@, 0x2000, 0x2000);
            lemma_smul_fits(sy@, cp@, 0x2000, 0x2000);
            lemma_smul_fits(cy@, sp@, 0x2000, 0x2000);
            lemma_smul_fits(cp@, cy@, 0x2000, 0x2000);
        }
        let p0 = cam_state.cam_pos.0;
        let p1 = cam_state.cam_pos.1;
        let p2 = cam_state.cam_pos.2;
        let dx = rat_dot3(cy, zero, x2, p0, p1, p2);
        let dy = rat_dot3(y0, cp, y2, p0, p1, p2);
        let dz = rat_dot3(z0, z1, z2, p0, p1, p2);
        let c3x = rat_neg(dx);
        let c3y = rat_neg(dy);
        let c3z = rat_neg(dz);
        Mat4 {
            c0: Vec4 { x: cy, y: y0, z: z0, w: zero },
            c1: Vec4 { x: zero, y: cp, z: z1, w: zero },
            c2: Vec4 { x: x2, y: y2, z: z2, w: zero },
            c3: Vec4 { x: c3x, y: c3y, z: c3z, w: one },
        }
    }
}

/// A projection built from the same parameters is the same matrix, entry for
/// entry: the builder is a pure function of its four scalars.
pub proof fn lemma_persp_proj_deterministic(
    m1: Mat4,
    m2: Mat4,
    t: Rat,
    asp: Rat,
    zn: Rat,
    zf: Rat,
)
    requires
        persp_proj_entries(m1, t, asp, zn, zf),
        persp_proj_entries(m2, t, asp, zn, zf),
    ensures
        m1 == m2,
{
}

/// A view matrix built from the same camera state and trigonometry is the
/// same matrix, entry for entry.
pub proof fn lemma_fp_view_deterministic(m1: Mat4, m2: Mat4, tr: CamTrig, cam: CamState)
    requires
        fp_view_entries(m1, tr, cam),
        fp_view_entries(m2, tr, cam),
    ensures
        m1 == m2,
{
}

/// The centre of the near plane, `(0, 0, -znear)` in eye space, lands at
/// clip depth `-1` (its clip `z` equals minus its clip `w`), and the centre
/// of the far plane, `(0, 0, -zfar)`, at clip depth `+1` — the standard
/// normalized-device-coordinate convention.  The clip `w` of both points is
/// positive, so the depths are well-defined.
#[verifier::rlimit(30)]
pub proof fn lemma_persp_proj_near_far(m: Mat4, t: Rat, asp: Rat, zn: Rat, zf: Rat)
    requires
        persp_proj_entries(m, t, asp, zn, zf),
        0 < t.n,
        0 < asp.n,
        0 < zn.n,
        slt(zn@, zf@),
        t.wf(),
        asp.wf(),
        zn.wf(),
        zf.wf(),
    ensures
        seqv(
            sxform_z(m@, SVec4 { x: s_int(0), y: s_int(0), z: sneg(zn@), w: s_int(1) }),
            sneg(sxform_w(m@, SVec4 { x: s_int(0), y: s_int(0), z: sneg(zn@), w: s_int(1) })),
        ),
        seqv(
            sxform_z(m@, SVec4 { x: s_int(0), y: s_int(0), z: sneg(zf@), w: s_int(1) }),
            sxform_w(m@, SVec4 { x: s_int(0), y: s_int(0), z: sneg(zf@), w: s_int(1) }),
        ),
        0 < sxform_w(m@, SVec4 { x: s_int(0), y: s_int(0), z: sneg(zn@), w: s_int(1) }).n,
        0 < sxform_w(m@, SVec4 { x: s_int(0), y: s_int(0), z: sneg(zf@), w: s_int(1) }).n,
{
    broadcast use vstd::arithmetic::mul::group_mul_basics;
    broadcast use vstd::arithmetic::mul::lemma_mul_by_zero_is_zero;
    broadcast use vstd::arithmetic::mul::lemma_mul_unary_negation;
    broadcast use vstd::arithmetic::mul::lemma_mul_cancels_negatives;

    let a = zn@.n;
    let b = zn@.d;
    let c = zf@.n;
    let e = zf@.d;
    let q = m@.c2.z;
    let qn = m@.c3.z;
    assert(q.n == -((c * b + a * e) * (e * b)) && q.d == (e * b) * (c * b - a * e));
    assert(qn.n == -((2 * (c * a)) * (e * b)) && qn.d == (e * b) * (c * b - a * e));
    let np = SVec4 { x: s_int(0), y: s_int(0), z: sneg(zn@), w: s_int(1) };
    let fp = SVec4 { x: s_int(0), y: s_int(0), z: sneg(zf@), w: s_int(1) };
    let zn_ = sxform_z(m@, np);
    let wn_ = sxform_w(m@, np);
    let zf_ = sxform_z(m@, fp);
    let wf_ = sxform_w(m@, fp);
    // Clip w of each point: only the -1 entry at c2.w contributes.
    assert(wn_.n == a && wn_.d == b);
    assert(wf_.n == c && wf_.d == e);
    assert(0 < c) by (nonlinear_arith)
        requires
            0 < a,
            0 < b,
            0 < e,
            a * e < c * b,
    {
    }
    // Clip z of each point: the q and qn entries contribute.
    assert(zn_.n == -a * q.n * qn.d + qn.n * (b * q.d) && zn_.d == b * q.d * qn.d);
    assert(zf_.n == -c * q.n * qn.d + qn.n * (e * q.d) && zf_.d == e * q.d * qn.d);
    // Factor the entries: with k = zfar.d * znear.d, s and g the numerators
    // of zfar + znear and 2 * zfar * znear, and mm the numerator of
    // zfar - znear, both clip z values are multiples of x = k * k * mm.
    let k = e * b;
    let mm = c * b - a * e;
    let s = c * b + a * e;
    let g = 2 * (c * a);
    let x = k * (k * mm);
    assert(q.n == -(s * k) && q.d == k * mm && qn.n == -(g * k) && qn.d == k * mm);
    assert(zn_.n == a * s * x - g * b * x) by (nonlinear_arith)
        requires
            zn_.n == -a * q.n * qn.d + qn.n * (b * q.d),
            q.n == -(s * k),
            q.d == k * mm,
            qn.n == -(g * k),
            qn.d == k * mm,
            x == k * (k * mm),
    {
    }
    assert(zn_.d == b * (mm * x)) by (nonlinear_arith)
        requires
            zn_.d == b * q.d * qn.d,
            q.d == k * mm,
            qn.d == k * mm,
            x == k * (k * mm),
    {
    }
    assert(zf_.n == c * s * x - g * e * x) by (nonlinear_arith)
        requires
            zf_.n == -c * q.n * qn.d + qn.n * (e * q.d),
            q.n == -(s * k),
            q.d == k * mm,
            qn.n == -(g * k),
            qn.d == k * mm,
            x == k * (k * mm),
    {
    }
    assert(zf_.d == e * (mm * x)) by (nonlinear_arith)
        requires
            zf_.d == e * q.d * qn.d,
            q.d == k * mm,
            qn.d == k * mm,
            x == k * (k * mm),
    {
    }
    // The algebraic heart: a*s - g*b == -(a*mm) and c*s - g*e == c*mm.
    assert(a * s - g * b == -(a * mm) && c * s - g * e == c * mm) by (nonlinear_arith)
        requires
            s == c * b + a * e,
            g == 2 * (c * a),
            mm == c * b - a * e,
    {
    }
    assert(zn_.n * b == -a * zn_.d) by (nonlinear_arith)
        requires
            zn_.n == a * s * x - g * b * x,
            zn_.d == b * (mm * x),
            a * s - g * b == -(a * mm),
    {
    }
    assert(zf_.n * e == c * zf_.d) by (nonlinear_arith)
        requires
            zf_.n == c * s * x - g * e * x,
            zf_.d == e * (mm * x),
            c * s - g * e == c * mm,
    {
    }
}

/// The view matrix maps the camera's own position to the origin of view
/// space: each spatial coordinate of the transformed camera position is zero
/// and its homogeneous coordinate is one.  This holds for any supplied
/// sines and cosines — it needs no trigonometric identity, only that the
/// translation column negates the dot products the rotation rows produce.
#[verifier::rlimit(30)]
pub proof fn lemma_fp_view_maps_cam_to_origin(m: Mat4, tr: CamTrig, cam: CamState)
    requires
        fp_view_entries(m, tr, cam),
    ensures
        seqv(
            sxform_x(
                m@,
                SVec4 { x: cam.cam_pos.0@, y: cam.cam_pos.1@, z: cam.cam_pos.2@, w: s_int(1) },
            ),
            s_int(0),
        ),
        seqv(
            sxform_y(
                m@,
                SVec4 { x: cam.cam_pos.0@, y: cam.cam_pos.1@, z: cam.cam_pos.2@, w: s_int(1) },
            ),
            s_int(0),
        ),
        seqv(
            sxform_z(
                m@,
                SVec4 { x: cam.cam_pos.0@, y: cam.cam_pos.1@, z: cam.cam_pos.2@, w: s_int(1) },
            ),
            s_int(0),
        ),
        seqv(
            sxform_w(
                m@,
                SVec4 { x: cam.cam_pos.0@, y: cam.cam_pos.1@, z: cam.cam_pos.2@, w: s_int(1) },
            ),
            s_int(1),
        ),
{
    broadcast use vstd::arithmetic::mul::group_mul_basics;
    broadcast use vstd::arithmetic::mul::lemma_mul_by_zero_is_zero;
    broadcast use vstd::arithmetic::mul::lemma_mul_unary_negation;

    let p = SVec4 { x: cam.cam_pos.0@, y: cam.cam_pos.1@, z: cam.cam_pos.2@, w: s_int(1) };
    let dx = xaxis_dot(tr, cam);
    let dy = yaxis_dot(tr, cam);
    let dz = zaxis_dot(tr, cam);
    lemma_smul_comm(p.x, m@.c0.x);
    lemma_smul_comm(p.y, m@.c1.x);
    lemma_smul_comm(p.z, m@.c2.x);
    assert(sadd(sadd(smul(p.x, m@.c0.x), smul(p.y, m@.c1.x)), smul(p.z, m@.c2.x)) == dx);
    lemma_smul_comm(p.x, m@.c0.y);
    lemma_smul_comm(p.y, m@.c1.y);
    lemma_smul_comm(p.z, m@.c2.y);
    assert(sadd(sadd(smul(p.x, m@.c0.y), smul(p.y, m@.c1.y)), smul(p.z, m@.c2.y)) == dy);
    lemma_smul_comm(p.x, m@.c0.z);
    lemma_smul_comm(p.y, m@.c1.z);
    lemma_smul_comm(p.z, m@.c2.z);
    assert(sadd(sadd(smul(p.x, m@.c0.z), smul(p.y, m@.c1.z)), smul(p.z, m@.c2.z)) == dz);
    // In each spatial coordinate the translation entry cancels the dot
    // product: the numerator of the image is d.n * d.d - d.n * d.d == 0.
    let ox = sxform_x(m@, p);
    assert(ox.n == dx.n * dx.d + -dx.n * dx.d && ox.n == 0);
    let oy = sxform_y(m@, p);
    assert(oy.n == dy.n * dy.d + -dy.n * dy.d && oy.n == 0);
    let oz = sxform_z(m@, p);
    assert(oz.n == dz.n * dz.d + -dz.n * dz.d && oz.n == 0);
    // The homogeneous coordinate: every product against the zero entries
    // vanishes and the single 1 entry passes the denominator through.
    let ow = sxform_w(m@, p);
    assert(ow.n == ow.d);
}


/// One instanced draw call of a frame plan: a vertex buffer's contents, one
/// attribute record per instance, and the resolved shader program.
pub struct InstancedDraw {
    pub shader: u64,
    pub vertices: Vec<Vertex>,
    pub attrs: Vec<Attr>,
}

/// One text draw of a frame plan, copied from its [`TextItem`].
pub struct TextDraw {
    pub text: String,
    pub color: (Rat, Rat, Rat, Rat),
    pub pos: Vector3,
    pub scale: Vector3,
}

/// The abstract value of an [`InstancedDraw`].
pub struct WorldView {
    pub shader: u64,
    pub vertices: Seq<Vertex>,
    pub attrs: Seq<Attr>,
}

/// The abstract value of one instanced draw.
pub open spec fn world_view(d: InstancedDraw) -> WorldView {
    WorldView { shader: d.shader, vertices: d.vertices@, attrs: d.attrs@ }
}

/// The abstract values of a plan's instanced draws, in order.
pub open spec fn world_views(v: Vec<InstancedDraw>) -> Seq<WorldView> {
    v@.map_values(|d: InstancedDraw| world_view(d))
}

/// One attribute record per transform, in order.
pub open spec fn attrs_of_seq(ts: Seq<Transform>) -> Seq<Attr> {
    ts.map_values(|t: Transform| attr_of(t))
}

/// The instanced draws a frame plan owes the given render items: one per
/// item in item order, resolved through the registry, except that an item
/// with no vertices is skipped (not an error).
pub open spec fn plan_world(sh: Shaders, items: Seq<RenderItem>) -> Seq<WorldView>
    decreases items.len(),
{
    if items.len() == 0 {
        Seq::empty()
    } else {
        let rest = plan_world(sh, items.drop_last());
        let it = items.last();
        if it.vertices@.len() == 0 {
            rest
        } else {
            rest.push(
                WorldView {
                    shader: sh.shader_of(it.shader_name@),
                    vertices: it.vertices@,
                    attrs: attrs_of_seq(it.instance_transforms@),
                },
            )
        }
    }
}

/// Some render item names a shader the registry does not hold.
pub open spec fn missing_shader(sh: Shaders, items: Seq<RenderItem>) -> bool {
    exists|i: int| 0 <= i < items.len() && !sh.has_shader(items[i].shader_name@)
}

/// A complete plan for one frame: global uniforms, the world draws, the text
/// draws, and the post-effect program that composites the captured scene.
/// The graphics layer executes it in phase order: capture begins, the target
/// is cleared, world draws run in order, text draws run in order, the
/// capture is composited through `composite_program`, the UI renders on
/// top, and the frame is presented (a presentation failure is logged, not
/// fatal).
pub struct FramePlan {
    pub projection: Mat4,
    pub modelview: Mat4,
    pub cam_pos: Vector3,
    pub time: Rat,
    pub world: Vec<InstancedDraw>,
    pub texts: Vec<TextDraw>,
    pub composite_program: u64,
}

/// Everything a successful frame plan promises about its inputs.
pub open spec fn frame_plan_ok(
    plan: FramePlan,
    sh: Shaders,
    post_idx: int,
    cam: CamState,
    trig: CamTrig,
    items: Seq<RenderItem>,
    texts: Seq<TextItem>,
    width: u32,
    height: u32,
    time: Rat,
    thf: Rat,
) -> bool {
    &&& 0 <= post_idx < sh.post_shaders@.len()
    &&& plan.composite_program == sh.post_shaders@[post_idx]
    &&& world_views(plan.world) == plan_world(sh, items)
    &&& plan.texts@.len() == texts.len()
    &&& forall|k: int|
        0 <= k < texts.len() ==> {
            &&& (#[trigger] plan.texts@[k]).text@ == texts[k].text@
            &&& plan.texts@[k].color == texts[k].color
            &&& plan.texts@[k].pos == texts[k].pos
            &&& plan.texts@[k].scale == texts[k].scale
        }
    &&& persp_proj_entries(
        plan.projection,
        thf,
        Rat { n: width as i128, d: height as i128 },
        Rat { n: 1, d: 100 },
        Rat { n: 1000, d: 1 },
    )
    &&& fp_view_entries(plan.modelview, trig, cam)
    &&& plan.cam_pos == cam.cam_pos
    &&& plan.time == time
}

impl Renderer {
    /// Plan one frame.  Fails with [`RenderError::PostIndexOutOfRange`]
    /// exactly when the selected post-effect index is past the post-shader
    /// list, else with [`RenderError::ShaderNotFound`] exactly when some
    /// render item's shader name is unregistered; otherwise the plan holds
    /// one instanced draw per render item with vertices (in item order, one
    /// attribute record per transform), one text draw per text item (in
    /// order), the camera matrices, and the selected composite program.
    /// The near and far planes sit at 1/100 and 1000.
    pub fn draw(
        &self,
        cam_state: &CamState,
        render_items: &Vec<RenderItem>,
        text_items: &Vec<TextItem>,
        width: u32,
        height: u32,
        time: Rat,
        tan_half_fov: Rat,
        trig: &CamTrig,
    ) -> (r: Result<FramePlan, RenderError>)
        requires
            self.wf(),
            0 < width <= 8192,
            0 < height <= 8192,
            tan_half_fov.fits(MAT_IN_MAX as int),
            0 < tan_half_fov.n,
            trig.wf(),
            cam_state.cam_pos.0.fits(MAT_IN_MAX as int),
            cam_state.cam_pos.1.fits(MAT_IN_MAX as int),
            cam_state.cam_pos.2.fits(MAT_IN_MAX as int),
        ensures
            r is Ok <==> {
                &&& self.post_effect.current_shader < self.shaders.post_shaders@.len()
                &&& !missing_shader(self.shaders, render_items@)
            },
            self.post_effect.current_shader >= self.shaders.post_shaders@.len() ==> r == Err::<
                FramePlan,
                RenderError,
            >(RenderError::PostIndexOutOfRange),
            self.post_effect.current_shader < self.shaders.post_shaders@.len() && missing_shader(
                self.shaders,
                render_items@,
            ) ==> r == Err::<FramePlan, RenderError>(RenderError::ShaderNotFound),
            r is Ok ==> frame_plan_ok(
                r->Ok_0,
                self.shaders,
                self.post_effect.current_shader as int,
                *cam_state,
                *trig,
                render_items@,
                text_items@,
                width,
                height,
                time,
                tan_half_fov,
            ),
    {
        let idx = self.post_effect.current_shader;
        let composite_program = match self.shaders.get_post_shader(idx) {
            Ok(h) => h,
            Err(e) => {
                return Err(e);
            },
        };
        proof {
            assert(idx < self.shaders.post_shaders@.len());
        }
        let mut world: Vec<InstancedDraw> = Vec::new();
        let n = render_items.len();
        for i in 0..n
            invariant
                self.wf(),
                n == render_items@.len(),
                idx == self.post_effect.current_shader,
                idx < self.shaders.post_shaders@.len(),
                composite_program == self.shaders.post_shaders@[idx as int],
                forall|k: int|
                    0 <= k < i ==> self.shaders.has_shader(
                        (#[trigger] render_items@[k]).shader_name@,
                    ),
                world_views(world) == plan_world(self.shaders, render_items@.take(i as int)),
        {
            let item = &render_items[i];
            let h = match self.shaders.get_shader(&item.shader_name) {
                Ok(h) => h,
                Err(e) => {
                    return Err(e);
                },
            };
            if item.vertices.len() > 0 {
                let mut vs: Vec<Vertex> = Vec::new();
                let nv = item.vertices.len();
                for j in 0..nv
                    invariant
                        nv == item.vertices@.len(),
                        vs@ == item.vertices@.take(j as int),
                {
                    vs.push(item.vertices[j]);
                    proof {
                        assert(vs@ =~= item.vertices@.take(j as int + 1));
                    }
                }
                let mut attrs: Vec<Attr> = Vec::new();
                let nt = item.instance_transforms.len();
                for j in 0..nt
                    invariant
                        nt == item.instance_transforms@.len(),
                        attrs@ == attrs_of_seq(item.instance_transforms@.take(j as int)),
                {
                    let t = &item.instance_transforms[j];
                    attrs.push(
                        Attr { world_position: t.pos, world_rotation: t.rot, world_scale: t.scale },
                    );
                    proof {
                        assert(attrs@ =~= attrs_of_seq(
                            item.instance_transforms@.take(j as int + 1),
                        ));
                    }
                }
                proof {
                    assert(vs@ =~= item.vertices@);
                    assert(attrs@ =~= attrs_of_seq(item.instance_transforms@));
                }
                world.push(InstancedDraw { shader: h, vertices: vs, attrs });
            }
            proof {
                assert(render_items@.take(i as int + 1).drop_last() =~= render_items@.take(
                    i as int,
                ));
                assert(render_items@.take(i as int + 1).last() == render_items@[i as int]);
                assert(world_views(world) =~= plan_world(
                    self.shaders,
                    render_items@.take(i as int + 1),
                ));
            }
        }
        proof {
            assert(render_items@.take(n as int) =~= render_items@);
        }
        let mut texts: Vec<TextDraw> = Vec::new();
        let m = text_items.len();
        for j in 0..m
            invariant
                self.wf(),
                m == text_items@.len(),
                idx == self.post_effect.current_shader,
                idx < self.shaders.post_shaders@.len(),
                composite_program == self.shaders.post_shaders@[idx as int],
                world_views(world) == plan_world(self.shaders, render_items@),
                forall|k: int|
                    0 <= k < render_items@.len() ==> self.shaders.has_shader(
                        (#[trigger] render_items@[k]).shader_name@,
                    ),
                texts@.len() == j,
                forall|k: int|
                    0 <= k < j ==> {
                        &&& (#[trigger] texts@[k]).text@ == text_items@[k].text@
                        &&& texts@[k].color == text_items@[k].color
                        &&& texts@[k].pos == text_items@[k].pos
                        &&& texts@[k].scale == text_items@[k].scale
                    },
        {
            let item = &text_items[j];
            let t = item.text.clone();
            texts.push(TextDraw { text: t, color: item.color, pos: item.pos, scale: item.scale });
        }
        let aspect = Rat { n: width as i128, d: height as i128 };
        let znear = Rat { n: 1, d: 100 };
        let zfar = Rat { n: 1000, d: 1 };
        let projection = Renderer::build_persp_proj_mat(tan_half_fov, aspect, znear, zfar);
        let modelview = Renderer::build_fp_view_matrix(cam_state, trig);
        Ok(
            FramePlan {
                projection,
                modelview,
                cam_pos: cam_state.cam_pos,
                time,
                world,
                texts,
                composite_program,
            },
        )
    }
}

/// The phases of a frame in the order the plan is executed.
#[derive(Clone, Copy, Debug, PartialEq, Eq, Structural)]
pub enum DrawPhase {
    /// An instanced world-geometry draw into the capture target.
    World,
    /// A text draw into the capture target.
    Text,
    /// The UI pass, rendered after the composite onto the real surface.
    Ui,
}

/// Position of a phase in the documented frame order.
pub open spec fn phase_rank(p: DrawPhase) -> int {
    match p {
        DrawPhase::World => 0,
        DrawPhase::Text => 1,
        DrawPhase::Ui => 2,
    }
}

/// The sequence of draw phases a plan is executed in: its world draws, then
/// its text draws, then the UI pass.
pub open spec fn plan_steps(p: FramePlan) -> Seq<DrawPhase> {
    Seq::new(p.world@.len() as nat, |i: int| DrawPhase::World) + Seq::new(
        p.texts@.len() as nat,
        |i: int| DrawPhase::Text,
    ) + seq![DrawPhase::Ui]
}

/// Draw ordering: in every frame plan, all world-geometry draws come before
/// all text draws, and all text draws before the UI pass.
pub proof fn lemma_draw_order(p: FramePlan)
    ensures
        forall|i: int, j: int|
            0 <= i <= j < plan_steps(p).len() ==> phase_rank(plan_steps(p)[i]) <= phase_rank(
                plan_steps(p)[j],
            ),
{
    let w = p.world@.len() as int;
    let t = p.texts@.len() as int;
    assert forall|i: int, j: int| 0 <= i <= j < plan_steps(p).len() implies phase_rank(
        plan_steps(p)[i],
    ) <= phase_rank(plan_steps(p)[j]) by {
        if i < w {
            assert(plan_steps(p)[i] == DrawPhase::World);
        } else if i < w + t {
            assert(plan_steps(p)[i] == DrawPhase::Text);
        } else {
            assert(plan_steps(p)[i] == DrawPhase::Ui);
        }
        if j < w {
            assert(plan_steps(p)[j] == DrawPhase::World);
        } else if j < w + t {
            assert(plan_steps(p)[j] == DrawPhase::Text);
        } else {
            assert(plan_steps(p)[j] == DrawPhase::Ui);
        }
    }
}

/// Switching the selected post effect changes which program composites the
/// frame and nothing else: two successful plans for the same inputs under
/// different post-effect indices have the same world draws, text draws and
/// matrices, and each composites through its own index's program.
pub proof fn lemma_post_effect_switch(
    p1: FramePlan,
    p2: FramePlan,
    sh: Shaders,
    i1: int,
    i2: int,
    cam: CamState,
    trig: CamTrig,
    items: Seq<RenderItem>,
    texts: Seq<TextItem>,
    width: u32,
    height: u32,
    time: Rat,
    thf: Rat,
)
    requires
        frame_plan_ok(p1, sh, i1, cam, trig, items, texts, width, height, time, thf),
        frame_plan_ok(p2, sh, i2, cam, trig, items, texts, width, height, time, thf),
    ensures
        p1.composite_program == sh.post_shaders@[i1],
        p2.composite_program == sh.post_shaders@[i2],
        world_views(p1.world) == world_views(p2.world),
        p1.texts@.len() == p2.texts@.len(),
        forall|k: int|
            0 <= k < p1.texts@.len() ==> {
                &&& (#[trigger] p1.texts@[k]).text@ == p2.texts@[k].text@
                &&& p1.texts@[k].color == p2.texts@[k].color
                &&& p1.texts@[k].pos == p2.texts@[k].pos
                &&& p1.texts@[k].scale == p2.texts@[k].scale
            },
        p1.projection == p2.projection,
        p1.modelview == p2.modelview,
{
    lemma_persp_proj_deterministic(
        p1.projection,
        p2.projection,
        thf,
        Rat { n: width as i128, d: height as i128 },
        Rat { n: 1, d: 100 },
        Rat { n: 1000, d: 1 },
    );
    lemma_fp_view_deterministic(p1.modelview, p2.modelview, trig, cam);
}

} // verus!
