use caper::math::{Mat4, Rat};
use caper::mesh::gen_cube;
use caper::posteffect::PostEffect;
use caper::renderer::{CamTrig, Renderer};
use caper::shader::Shaders;
use caper::types::{
    rat_try_add, vec3_translate, CamState, Entity, RenderError, RenderItem, TextItem, TextUpdate,
    Transform, TransformUpdate, Vector3,
};

fn r(n: i128, d: i128) -> Rat {
    Rat { n, d }
}

/// Value equality of a rational against n/d, by cross-multiplication.
fn val_eq(x: Rat, n: i128, d: i128) -> bool {
    x.n * d == n * x.d
}

fn demo_shaders() -> Shaders {
    Shaders::new(
        vec![String::from("dist"), String::from("height")],
        vec![7, 8],
        vec![100, 101, 102],
    )
}

fn demo_trig() -> CamTrig {
    // pitch and yaw both with sine 3/5 and cosine 4/5
    CamTrig {
        sin_pitch: r(3, 5),
        cos_pitch: r(4, 5),
        sin_yaw: r(3, 5),
        cos_yaw: r(4, 5),
    }
}

fn demo_cam() -> CamState {
    CamState {
        cam_pos: (r(1, 1), r(2, 1), r(3, 1)),
        cam_rot: (r(0, 1), r(0, 1), r(0, 1)),
    }
}

fn cube_item() -> RenderItem {
    RenderItem {
        vertices: gen_cube(),
        shader_name: String::from("dist"),
        instance_transforms: vec![Transform {
            pos: (r(-1, 2), r(0, 1), r(-5, 1)),
            rot: (r(0, 1), r(0, 1), r(0, 1), r(1, 1)),
            scale: (r(1, 1), r(1, 1), r(1, 1)),
            update_fn: Vec::new(),
        }],
    }
}

#[test]
fn persp_proj_exact_entries() {
    // tan_half_fov = 1/2, aspect = 2, znear = 1/100, zfar = 1000
    let m = Renderer::build_persp_proj_mat(r(1, 2), r(2, 1), r(1, 100), r(1000, 1));
    // w = 2*zn/width = 1/(t*aspect) = 1
    assert!(val_eq(m.c0.x, 1, 1));
    // h = 2*zn/height = 1/t = 2
    assert!(val_eq(m.c1.y, 2, 1));
    // q = -(zf+zn)/(zf-zn) = -100001/99999
    assert!(val_eq(m.c2.z, -100001, 99999));
    // qn = -2*zf*zn/(zf-zn) = -2000/99999
    assert!(val_eq(m.c3.z, -2000, 99999));
    assert!(val_eq(m.c2.w, -1, 1));
    // every other entry is zero
    assert!(val_eq(m.c0.y, 0, 1) && val_eq(m.c0.z, 0, 1) && val_eq(m.c0.w, 0, 1));
    assert!(val_eq(m.c1.x, 0, 1) && val_eq(m.c1.z, 0, 1) && val_eq(m.c1.w, 0, 1));
    assert!(val_eq(m.c2.x, 0, 1) && val_eq(m.c2.y, 0, 1));
    assert!(val_eq(m.c3.x, 0, 1) && val_eq(m.c3.y, 0, 1) && val_eq(m.c3.w, 0, 1));
}

#[test]
fn persp_proj_deterministic() {
    let m1 = Renderer::build_persp_proj_mat(r(1, 2), r(2, 1), r(1, 100), r(1000, 1));
    let m2 = Renderer::build_persp_proj_mat(r(1, 2), r(2, 1), r(1, 100), r(1000, 1));
    assert_eq!(m1, m2);
}

#[test]
fn persp_proj_near_far_depth() {
    // The near-plane centre maps to clip depth -1, the far-plane centre to +1.
    let zn = r(1, 100);
    let zf = r(1000, 1);
    let m = Renderer::build_persp_proj_mat(r(1, 2), r(2, 1), zn, zf);
    for (z, expected) in [(zn, -1i128), (zf, 1i128)] {
        // clip z = q * (-z) + qn ; clip w = z ; depth = clip z / clip w
        let q = m.c2.z;
        let qn = m.c3.z;
        let cz_n = q.n * -z.n * qn.d + qn.n * (z.d * q.d);
        let cz_d = z.d * q.d * qn.d;
        // cz / z == expected  <=>  cz_n * z.d == expected * cz_d * z.n
        assert_eq!(cz_n * z.d, expected * cz_d * z.n);
    }
}

fn apply_col(m: &Mat4, p: (Rat, Rat, Rat)) -> [(i128, i128); 4] {
    // image of the homogeneous point (p, 1) under the column-major matrix,
    // as unreduced rational coordinates
    let cols = [m.c0, m.c1, m.c2, m.c3];
    let pw = [p.0, p.1, p.2, r(1, 1)];
    let mut out = [(0i128, 1i128); 4];
    for coord in 0..4 {
        let mut acc = (0i128, 1i128);
        for k in 0..4 {
            let entry = match coord {
                0 => cols[k].x,
                1 => cols[k].y,
                2 => cols[k].z,
                _ => cols[k].w,
            };
            let term = (pw[k].n * entry.n, pw[k].d * entry.d);
            acc = (acc.0 * term.1 + term.0 * acc.1, acc.1 * term.1);
        }
        out[coord] = acc;
    }
    out
}

#[test]
fn fp_view_maps_camera_to_origin() {
    let cam = demo_cam();
    let trig = demo_trig();
    let m = Renderer::build_fp_view_matrix(&cam, &trig);
    let out = apply_col(&m, cam.cam_pos);
    // the spatial coordinates vanish and the homogeneous one is 1
    assert_eq!(out[0].0, 0);
    assert_eq!(out[1].0, 0);
    assert_eq!(out[2].0, 0);
    assert_eq!(out[3].0, out[3].1);
}

#[test]
fn fp_view_roll_is_ignored() {
    let mut cam = demo_cam();
    let m1 = Renderer::build_fp_view_matrix(&cam, &demo_trig());
    cam.cam_rot.2 = r(99, 1);
    let m2 = Renderer::build_fp_view_matrix(&cam, &demo_trig());
    assert_eq!(m1, m2);
}

#[test]
fn gen_cube_deterministic() {
    let a = gen_cube();
    let b = gen_cube();
    assert_eq!(a.len(), 36);
    assert_eq!(a, b);
}

#[test]
fn gen_cube_first_vertex() {
    let v = gen_cube();
    assert_eq!(v[0].position, (r(0, 1), r(0, 1), r(1, 1)));
    assert_eq!(v[0].normal, (r(0, 1), r(0, 1), r(1, 1)));
    assert_eq!(v[0].texture, (r(0, 1), r(0, 1)));
}

#[test]
fn shader_lookup_registered() {
    let sh = demo_shaders();
    let name = String::from("dist");
    assert_eq!(sh.get_shader(&name), Ok(7));
    assert_eq!(sh.get_shader(&name), Ok(7));
    let other = String::from("height");
    assert_eq!(sh.get_shader(&other), Ok(8));
}

#[test]
fn shader_lookup_unknown_always_fails_the_same_way() {
    let sh = demo_shaders();
    let name = String::from("nope");
    assert_eq!(sh.get_shader(&name), Err(RenderError::ShaderNotFound));
    assert_eq!(sh.get_shader(&name), Err(RenderError::ShaderNotFound));
}

#[test]
fn post_shader_lookup() {
    let sh = demo_shaders();
    assert_eq!(sh.get_post_shader(0), Ok(100));
    assert_eq!(sh.get_post_shader(2), Ok(102));
    assert_eq!(sh.get_post_shader(3), Err(RenderError::PostIndexOutOfRange));
}

#[test]
fn draw_single_cube_scenario() {
    let rend = Renderer::new(demo_shaders());
    let items = vec![cube_item()];
    let texts: Vec<TextItem> = Vec::new();
    let plan = rend
        .draw(&demo_cam(), &items, &texts, 800, 600, r(0, 1), r(1, 2), &demo_trig())
        .unwrap();
    // exactly one instanced draw with instance count 1, through "dist"
    assert_eq!(plan.world.len(), 1);
    assert_eq!(plan.world[0].shader, 7);
    assert_eq!(plan.world[0].vertices.len(), 36);
    assert_eq!(plan.world[0].attrs.len(), 1);
    assert_eq!(plan.world[0].attrs[0].world_position, (r(-1, 2), r(0, 1), r(-5, 1)));
    assert_eq!(plan.texts.len(), 0);
    assert_eq!(plan.composite_program, 100);
}

#[test]
fn draw_skips_empty_vertex_items() {
    let rend = Renderer::new(demo_shaders());
    let empty = RenderItem {
        vertices: Vec::new(),
        shader_name: String::from("height"),
        instance_transforms: Vec::new(),
    };
    let items = vec![empty, cube_item()];
    let texts: Vec<TextItem> = Vec::new();
    let plan = rend
        .draw(&demo_cam(), &items, &texts, 800, 600, r(0, 1), r(1, 2), &demo_trig())
        .unwrap();
    assert_eq!(plan.world.len(), 1);
    assert_eq!(plan.world[0].shader, 7);
}

#[test]
fn draw_unknown_shader_is_fatal() {
    let rend = Renderer::new(demo_shaders());
    let mut item = cube_item();
    item.shader_name = String::from("nope");
    let items = vec![item];
    let texts: Vec<TextItem> = Vec::new();
    let res = rend.draw(&demo_cam(), &items, &texts, 800, 600, r(0, 1), r(1, 2), &demo_trig());
    assert_eq!(res.err(), Some(RenderError::ShaderNotFound));
}

#[test]
fn draw_out_of_range_post_index_is_fatal() {
    let rend = Renderer {
        shaders: demo_shaders(),
        post_effect: PostEffect { current_shader: 9 },
    };
    let items = vec![cube_item()];
    let texts: Vec<TextItem> = Vec::new();
    let res = rend.draw(&demo_cam(), &items, &texts, 800, 600, r(0, 1), r(1, 2), &demo_trig());
    assert_eq!(res.err(), Some(RenderError::PostIndexOutOfRange));
}

#[test]
fn post_effect_switch_changes_only_composite() {
    let mut rend = Renderer::new(demo_shaders());
    let items = vec![cube_item()];
    let texts: Vec<TextItem> = Vec::new();
    let p1 = rend
        .draw(&demo_cam(), &items, &texts, 800, 600, r(0, 1), r(1, 2), &demo_trig())
        .unwrap();
    assert_eq!(rend.select_post_effect(1), Ok(()));
    let p2 = rend
        .draw(&demo_cam(), &items, &texts, 800, 600, r(0, 1), r(1, 2), &demo_trig())
        .unwrap();
    assert_eq!(p1.composite_program, 100);
    assert_eq!(p2.composite_program, 101);
    // capture-pass draws are untouched by the switch
    assert_eq!(p1.world.len(), p2.world.len());
    assert_eq!(p1.world[0].shader, p2.world[0].shader);
    assert_eq!(p1.world[0].vertices, p2.world[0].vertices);
    assert_eq!(p1.world[0].attrs, p2.world[0].attrs);
    assert_eq!(p1.projection, p2.projection);
    assert_eq!(p1.modelview, p2.modelview);
}

#[test]
fn select_post_effect_rejects_out_of_range() {
    let mut rend = Renderer::new(demo_shaders());
    assert_eq!(rend.select_post_effect(5), Err(RenderError::PostIndexOutOfRange));
    assert_eq!(rend.post_effect.current_shader, 0);
    assert_eq!(rend.select_post_effect(2), Ok(()));
    assert_eq!(rend.post_effect.current_shader, 2);
}

#[test]
fn text_items_are_planned_in_order_after_world() {
    let rend = Renderer::new(demo_shaders());
    let items = vec![cube_item()];
    let texts = vec![
        TextItem {
            text: String::from("hello"),
            color: (r(1, 1), r(0, 1), r(0, 1), r(1, 1)),
            pos: (r(0, 1), r(0, 1), r(0, 1)),
            scale: (r(1, 1), r(1, 1), r(1, 1)),
            update_fn: Vec::new(),
        },
        TextItem {
            text: String::from("world"),
            color: (r(0, 1), r(1, 1), r(0, 1), r(1, 1)),
            pos: (r(1, 1), r(0, 1), r(0, 1)),
            scale: (r(2, 1), r(2, 1), r(2, 1)),
            update_fn: Vec::new(),
        },
    ];
    let plan = rend
        .draw(&demo_cam(), &items, &texts, 800, 600, r(0, 1), r(1, 2), &demo_trig())
        .unwrap();
    assert_eq!(plan.texts.len(), 2);
    assert_eq!(plan.texts[0].text, "hello");
    assert_eq!(plan.texts[1].text, "world");
    assert_eq!(plan.texts[1].scale, (r(2, 1), r(2, 1), r(2, 1)));
}

#[test]
fn transform_updates_apply_in_order() {
    let mut t = Transform {
        pos: (r(0, 1), r(0, 1), r(0, 1)),
        rot: (r(0, 1), r(0, 1), r(0, 1), r(1, 1)),
        scale: (r(1, 1), r(1, 1), r(1, 1)),
        update_fn: vec![
            TransformUpdate::SetPos((r(1, 1), r(1, 1), r(1, 1))),
            TransformUpdate::Translate((r(1, 2), r(0, 1), r(-3, 1))),
            TransformUpdate::SetScale((r(2, 1), r(2, 1), r(2, 1))),
        ],
    };
    t.update();
    // pos = (1 + 1/2, 1, 1 - 3) = (3/2, 1, -2)
    assert!(val_eq(t.pos.0, 3, 2));
    assert!(val_eq(t.pos.1, 1, 1));
    assert!(val_eq(t.pos.2, -2, 1));
    assert_eq!(t.scale, (r(2, 1), r(2, 1), r(2, 1)));
    assert_eq!(t.update_fn.len(), 3);
}

#[test]
fn text_item_updates_apply_in_order() {
    let mut t = TextItem {
        text: String::from("old"),
        color: (r(0, 1), r(0, 1), r(0, 1), r(1, 1)),
        pos: (r(0, 1), r(0, 1), r(0, 1)),
        scale: (r(1, 1), r(1, 1), r(1, 1)),
        update_fn: vec![
            TextUpdate::SetText(String::from("new")),
            TextUpdate::Translate((r(1, 1), r(0, 1), r(0, 1))),
        ],
    };
    t.update();
    assert_eq!(t.text, "new");
    assert!(val_eq(t.pos.0, 1, 1));
}

#[test]
fn checked_addition_caps_overflow() {
    let big = r(0x4000000000000000, 1);
    let over = r(0x4000000000000001, 1);
    assert_eq!(rat_try_add(big, r(1, 1)), Some(r(0x4000000000000001, 1)));
    assert_eq!(rat_try_add(over, r(1, 1)), None);
    // an overflowing component is left unchanged by translation
    let v: Vector3 = (over, r(1, 1), r(2, 1));
    let moved = vec3_translate(v, (r(1, 1), r(1, 1), r(1, 1)));
    assert_eq!(moved.0, over);
    assert!(val_eq(moved.1, 2, 1));
    assert!(val_eq(moved.2, 3, 1));
}

#[test]
fn post_effect_starts_at_first_shader() {
    assert_eq!(PostEffect::new().current_shader, 0);
}

#[test]
fn float_scalars_embed_exactly() {
    // every f32 is a dyadic rational, so positions from the graphics layer
    // embed losslessly: 0.75f32 == 3/4
    let x = 0.75f32;
    let scaled = (x * 4.0) as i128;
    let embedded = r(scaled, 4);
    assert!(val_eq(embedded, 3, 4));
}
