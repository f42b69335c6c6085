use std::path::PathBuf;

use shinzou::clock::Timer;
use shinzou::renderer::entities::{
    compare_bytes, compare_names, sort_renderables, MapType, Material, Order, Renderable,
    Texture, TextureRaw, TEXTURE_BIT_DEPTH,
};
use shinzou::renderer::resources::{
    get_current_frame_number, pad_ubo_size, plan_draw_calls, scene_ubo_offset, DrawCommand,
    Registry,
};
use ultraviolet::Mat4;

fn renderable(mesh: &str, material: &str) -> Renderable {
    Renderable::new(mesh.to_string(), material.to_string(), Mat4::identity())
}

#[test]
fn material_keeps_its_parts() {
    let m = Material::new(
        "textured".to_string(),
        PathBuf::from("shader.vert.spv"),
        PathBuf::from("shader.frag.spv"),
    );
    assert_eq!(m.name, "textured");
    assert_eq!(m.vertex_shader_path, PathBuf::from("shader.vert.spv"));
    assert_eq!(m.fragment_shader_path, PathBuf::from("shader.frag.spv"));
}

#[test]
fn texture_map_type_defaults_to_diffuse() {
    let name = "empire_diffuse".to_string();
    let t = Texture::new(&name, PathBuf::from("a.png"), None);
    assert_eq!(t.name, "empire_diffuse");
    assert_eq!(t.map_type, MapType::Diffuse);
    assert_eq!(t.file_path, PathBuf::from("a.png"));
    let n = Texture::new(&name, PathBuf::from("b.png"), Some(MapType::Normal));
    assert_eq!(n.map_type, MapType::Normal);
}

#[test]
fn raw_texture_size_is_four_bytes_per_pixel() {
    let raw = TextureRaw::from_rgba8(vec![0u8; 24], 3, 2);
    assert_eq!(raw.bit_depth, TEXTURE_BIT_DEPTH);
    assert_eq!(raw.size, 24);
    assert_eq!(raw.width, 3);
    assert_eq!(raw.height, 2);
    assert_eq!(raw.buffer.len(), 24);
}

#[test]
fn ubo_padding() {
    assert_eq!(pad_ubo_size(0, 80), 80);
    assert_eq!(pad_ubo_size(256, 80), 256);
    assert_eq!(pad_ubo_size(256, 256), 256);
    assert_eq!(pad_ubo_size(256, 257), 512);
    assert_eq!(pad_ubo_size(64, 0), 0);
    assert_eq!(pad_ubo_size(1, 13), 13);
    // Padding a padded size changes nothing.
    assert_eq!(pad_ubo_size(256, pad_ubo_size(256, 300) as usize), 512);
}

#[test]
fn frame_slots_cycle() {
    assert_eq!(get_current_frame_number(0, 2), 0);
    assert_eq!(get_current_frame_number(1, 2), 1);
    assert_eq!(get_current_frame_number(2, 2), 0);
    assert_eq!(get_current_frame_number(7, 3), 1);
    assert_eq!(get_current_frame_number(7 + 3, 3), get_current_frame_number(7, 3));
}

#[test]
fn scene_offsets() {
    assert_eq!(scene_ubo_offset(256, 0), 0);
    assert_eq!(scene_ubo_offset(256, 2), 512);
    assert_eq!(scene_ubo_offset(1 << 31, 2), 0);
}

#[test]
fn byte_and_name_order() {
    assert_eq!(compare_bytes(b"abc", b"abd"), Order::Less);
    assert_eq!(compare_bytes(b"ab", b"abc"), Order::Less);
    assert_eq!(compare_bytes(b"abc", b"abc"), Order::Equal);
    assert_eq!(compare_bytes(b"b", b"abc"), Order::Greater);
    assert_eq!(compare_bytes(b"", b""), Order::Equal);
    assert_eq!(compare_names(&"debug".to_string(), &"default".to_string()), Order::Less);
    assert_eq!(compare_names(&"Zeta".to_string(), &"alpha".to_string()), Order::Less);
}

#[test]
fn renderables_order_by_material_then_mesh() {
    let a = renderable("monkey", "default");
    let b = renderable("triangle", "default");
    let c = renderable("aardvark", "textured");
    assert_eq!(a.compare(&b), Order::Less);
    assert_eq!(b.compare(&c), Order::Less);
    assert_eq!(c.compare(&a), Order::Greater);
    assert_eq!(a.compare(&renderable("monkey", "default")), Order::Equal);
    assert!(a == renderable("monkey", "default"));
    assert!(a != b);
}

#[test]
fn sorting_groups_by_material() {
    let mut scene = vec![
        renderable("triangle", "debug"),
        renderable("monkey", "default"),
        renderable("empire", "textured"),
        renderable("monkey", "debug"),
        renderable("empire", "default"),
        renderable("monkey", "default"),
    ];
    sort_renderables(&mut scene);
    let names: Vec<(String, String)> =
        scene.iter().map(|r| (r.material_name.clone(), r.mesh_name.clone())).collect();
    let expected = vec![
        ("debug", "monkey"),
        ("debug", "triangle"),
        ("default", "empire"),
        ("default", "monkey"),
        ("default", "monkey"),
        ("textured", "empire"),
    ];
    let expected: Vec<(String, String)> =
        expected.into_iter().map(|(a, b)| (a.to_string(), b.to_string())).collect();
    assert_eq!(names, expected);
}

#[test]
fn sorting_empty_scene() {
    let mut scene: Vec<Renderable> = Vec::new();
    sort_renderables(&mut scene);
    assert!(scene.is_empty());
}

fn describe(c: &DrawCommand) -> String {
    match c {
        DrawCommand::BindMaterial { material } => format!("material {}", material),
        DrawCommand::BindMesh { mesh } => format!("mesh {}", mesh),
        DrawCommand::Draw { renderable, first_instance } => format!("draw {} {}", renderable, first_instance),
    }
}

#[test]
fn draw_plan_binds_only_on_change() {
    let scene = vec![
        renderable("monkey", "default"),
        renderable("monkey", "default"),
        renderable("triangle", "default"),
        renderable("triangle", "debug"),
    ];
    let plan: Vec<String> = plan_draw_calls(&scene).iter().map(describe).collect();
    assert_eq!(
        plan,
        vec![
            "material default",
            "mesh monkey",
            "draw 0 0",
            "draw 1 1",
            "mesh triangle",
            "draw 2 2",
            "material debug",
            "draw 3 3",
        ]
    );
    assert!(plan_draw_calls(&Vec::new()).is_empty());
}

#[test]
fn registry_reads_back_writes() {
    let mut reg: Registry<u32> = Registry::new();
    assert_eq!(reg.len(), 0);
    assert_eq!(reg.get("default"), None);
    reg.insert("default".to_string(), 1);
    reg.insert("frame_0_present".to_string(), 2);
    assert_eq!(reg.get("default"), Some(&1));
    assert_eq!(reg.get("frame_0_present"), Some(&2));
    assert_eq!(reg.len(), 2);
    reg.insert("default".to_string(), 3);
    assert_eq!(reg.get("default"), Some(&3));
    assert_eq!(reg.get("frame_0_present"), Some(&2));
    assert_eq!(reg.len(), 2);
    assert_eq!(reg.get("defaul"), None);
}

#[test]
fn timer_ticks() {
    let mut timer = Timer::new();
    let first = timer.tick();
    let second = timer.tick();
    assert!(first < 60_000_000_000);
    assert!(second < 60_000_000_000);
}

#[test]
fn timer_tick_at_measures_from_the_last_tick() {
    let mut timer = Timer::new();
    assert_eq!(timer.tick_at(16_000_000), 16_000_000);
    assert_eq!(timer.tick_at(33_000_000), 17_000_000);
    assert_eq!(timer.tick_at(33_000_000), 0);
    // A reading before the last tick counts as no time, and becomes the last tick.
    assert_eq!(timer.tick_at(30_000_000), 0);
    assert_eq!(timer.tick_at(31_000_000), 1_000_000);
}
