use glam::{vec2, vec3, vec4, Quat, Vec3, Vec4};
use tiny_game_framework::{
    InstanceData, InstanceMesh, Mesh, Renderer, Shader, ShaderSet, ShaderType, Transform, Vertex,
};

fn rest() -> Transform {
    Transform { position: Vec3::ZERO, rotation: Quat::IDENTITY, scale: Vec3::ONE }
}

fn corner(x: f32, y: f32) -> Vertex {
    Vertex::new(vec3(x, y, 0.0), Vec4::ONE, vec2(x, y), vec3(0.0, 0.0, 1.0))
}

fn square() -> Mesh {
    let vertices = vec![corner(0.0, 0.0), corner(0.0, 1.0), corner(1.0, 0.0), corner(1.0, 1.0)];
    Mesh::new(&vertices, &vec![0, 2, 1, 2, 3, 1], rest(), Shader { id: 7 })
}

#[test]
fn vertex_new_keeps_its_arguments() {
    let vertex = Vertex::new(vec3(1.0, 2.0, 3.0), vec4(0.1, 0.2, 0.3, 0.4), vec2(0.5, 0.6), vec3(0.0, 1.0, 0.0));
    assert_eq!(vertex.position, vec3(1.0, 2.0, 3.0));
    assert_eq!(vertex.color, vec4(0.1, 0.2, 0.3, 0.4));
    assert_eq!(vertex.tex_coords, vec2(0.5, 0.6));
    assert_eq!(vertex.normal, vec3(0.0, 1.0, 0.0));
}

#[test]
fn new_mesh_copies_its_buffers_and_knows_no_handles() {
    let mesh = square();
    assert_eq!(mesh.vertices.len(), 4);
    assert_eq!(mesh.vertices[3], corner(1.0, 1.0));
    assert_eq!(mesh.indices, vec![0, 2, 1, 2, 3, 1]);
    assert_eq!((mesh.VAO, mesh.VBO, mesh.EBO), (0, 0, 0));
    assert_eq!(mesh.position, Vec3::ZERO);
    assert_eq!(mesh.rotation, Quat::IDENTITY);
    assert_eq!(mesh.scale, Vec3::ONE);
    assert_eq!(mesh.texture, 0);
    assert_eq!(mesh.shader, Shader { id: 7 });
    assert!(mesh.parent.is_none());
    assert!(mesh.children.is_empty());
}

#[test]
fn shader_set_selects_by_type() {
    let shaders = ShaderSet { default: Shader { id: 1 }, light: Shader { id: 2 }, full: Shader { id: 3 } };
    assert_eq!(shaders.select(&ShaderType::Default), Shader { id: 1 });
    assert_eq!(shaders.select(&ShaderType::Light), Shader { id: 2 });
    assert_eq!(shaders.select(&ShaderType::Full), Shader { id: 3 });
}

#[test]
fn set_shader_type_changes_the_shader_only() {
    let shaders = ShaderSet { default: Shader { id: 1 }, light: Shader { id: 2 }, full: Shader { id: 3 } };
    let mut mesh = square();
    let before = mesh.clone();
    mesh.set_shader_type(&ShaderType::Full, &shaders);
    assert_eq!(mesh.shader, Shader { id: 3 });
    mesh.shader = before.shader;
    assert_eq!(mesh, before);
}

#[test]
fn set_color_paints_every_vertex_and_nothing_else() {
    let mut mesh = square();
    let before = mesh.clone();
    let red = vec4(1.0, 0.0, 0.0, 1.0);
    mesh.set_color(red);
    assert_eq!(mesh.vertices.len(), 4);
    for (painted, was) in mesh.vertices.iter().zip(before.vertices.iter()) {
        assert_eq!(painted.color, red);
        assert_eq!(painted.position, was.position);
        assert_eq!(painted.tex_coords, was.tex_coords);
        assert_eq!(painted.normal, was.normal);
    }
    assert_eq!(mesh.indices, before.indices);
}

#[test]
fn clone_is_a_deep_copy() {
    let mut mesh = square();
    mesh.add_child(square());
    let copy = mesh.clone();
    assert_eq!(copy, mesh);
    mesh.children[0].texture = 9;
    assert_ne!(copy, mesh);
    assert_eq!(copy.children[0].texture, 0);
}

#[test]
fn set_parent_keeps_the_parent() {
    let mut mesh = square();
    let mut parent = square();
    parent.texture = 5;
    mesh.set_parent(parent.clone());
    assert_eq!(mesh.parent.as_deref(), Some(&parent));
}

#[test]
fn add_child_gives_the_child_the_mesh_as_it_was() {
    let mut mesh = square();
    let before = mesh.clone();
    let mut child = square();
    child.texture = 3;
    mesh.add_child(child);
    assert_eq!(mesh.children.len(), 1);
    assert_eq!(mesh.children[0].texture, 3);
    assert_eq!(mesh.children[0].parent.as_deref(), Some(&before));

    let with_one = mesh.clone();
    mesh.add_child(square());
    assert_eq!(mesh.children.len(), 2);
    assert_eq!(mesh.children[0], with_one.children[0]);
    assert_eq!(mesh.children[1].parent.as_deref(), Some(&with_one));
}

#[test]
fn set_scale_reaches_every_mesh_below() {
    let mut grandchild_holder = square();
    grandchild_holder.add_child(square());
    let mut mesh = square();
    mesh.add_child(grandchild_holder);
    mesh.add_child(square());
    let scale = vec3(2.0, 3.0, 4.0);
    mesh.set_scale(scale);
    assert_eq!(mesh.scale, scale);
    assert_eq!(mesh.children[0].scale, scale);
    assert_eq!(mesh.children[0].children[0].scale, scale);
    assert_eq!(mesh.children[1].scale, scale);
    // the remembered parents are snapshots and stay as they were
    assert_eq!(mesh.children[0].parent.as_ref().unwrap().scale, Vec3::ONE);
}

#[test]
fn set_rotation_reaches_every_mesh_below() {
    let mut mesh = square();
    mesh.add_child(square());
    mesh.children[0].add_child(square());
    let turn = Quat::from_xyzw(0.0, 1.0, 0.0, 0.0);
    mesh.set_rotation(turn);
    assert_eq!(mesh.rotation, turn);
    assert_eq!(mesh.children[0].rotation, turn);
    assert_eq!(mesh.children[0].children[0].rotation, turn);
    assert_eq!(mesh.position, Vec3::ZERO);
    assert_eq!(mesh.children[0].scale, Vec3::ONE);
}

#[test]
fn set_texture_looks_the_handle_up() {
    let mut renderer: Renderer<(), ()> = Renderer::new(());
    renderer.add_texture("cobble".to_owned(), 42);
    let mut mesh = square();
    mesh.set_texture("cobble", &renderer);
    assert_eq!(mesh.texture, 42);
}

#[test]
fn instance_mesh_new_copies_its_buffers() {
    let mesh = square();
    let instanced = InstanceMesh::new(&mesh.vertices, &mesh.indices, 3, Shader { id: 4 });
    assert_eq!(instanced.vertices, mesh.vertices);
    assert_eq!(instanced.indices, mesh.indices);
    assert_eq!((instanced.VAO, instanced.VBO, instanced.EBO, instanced.instance_buffer), (0, 0, 0, 0));
    assert_eq!(instanced.n, 3);
    assert!(instanced.instance_data.is_empty());
    assert_eq!(instanced.shader, Shader { id: 4 });
}

#[test]
fn to_instance_takes_the_transforms() {
    let mesh = square();
    let data = vec![
        InstanceData { x_axis: Vec4::X, y_axis: Vec4::Y, z_axis: Vec4::Z, w_axis: Vec4::W },
        InstanceData { x_axis: Vec4::X, y_axis: Vec4::Y, z_axis: Vec4::Z, w_axis: vec4(1.0, 2.0, 3.0, 1.0) },
    ];
    let instanced = mesh.to_instance(data.clone(), 2, Shader { id: 4 });
    assert_eq!(instanced.vertices, mesh.vertices);
    assert_eq!(instanced.indices, mesh.indices);
    assert_eq!(instanced.n, 2);
    assert_eq!(instanced.instance_data, data);
    assert_eq!(instanced.shader, Shader { id: 4 });
}

fn family() -> Mesh {
    let mut child = square();
    child.position = vec3(1.0, 2.0, 3.0);
    child.scale = vec3(2.0, 2.0, 2.0);
    child.rotation = Quat::from_xyzw(0.5, 0.0, 0.0, 0.5);
    let mut grandchild = square();
    grandchild.position = vec3(10.0, 0.0, 0.0);
    child.add_child(grandchild);
    let mut mesh = square();
    mesh.position = vec3(100.0, 100.0, 100.0);
    mesh.add_child(child);
    mesh
}

#[test]
fn set_position_moves_the_children_from_where_they_stand() {
    let mut mesh = family();
    mesh.set_position(vec3(5.0, 6.0, 7.0));
    assert_eq!(mesh.position, vec3(5.0, 6.0, 7.0));
    assert_eq!(mesh.children[0].position, vec3(6.0, 8.0, 10.0));
    assert_eq!(mesh.children[0].children[0].position, vec3(16.0, 8.0, 10.0));
    assert_eq!(mesh.children[0].scale, vec3(2.0, 2.0, 2.0));
}

#[test]
fn add_position_moves_every_mesh_below() {
    let mut mesh = family();
    mesh.add_position(vec3(1.0, 0.0, -1.0));
    assert_eq!(mesh.position, vec3(101.0, 100.0, 99.0));
    assert_eq!(mesh.children[0].position, vec3(2.0, 2.0, 2.0));
    assert_eq!(mesh.children[0].children[0].position, vec3(11.0, 0.0, -1.0));
    // the remembered parent is a snapshot and stays where it was
    assert_eq!(mesh.children[0].parent.as_ref().unwrap().position, vec3(100.0, 100.0, 100.0));
}

#[test]
fn scale_multiplies_axis_by_axis() {
    let mut mesh = family();
    mesh.scale(vec3(2.0, 3.0, 4.0));
    assert_eq!(mesh.scale, vec3(2.0, 3.0, 4.0));
    assert_eq!(mesh.children[0].scale, vec3(4.0, 6.0, 8.0));
    assert_eq!(mesh.children[0].children[0].scale, vec3(2.0, 3.0, 4.0));
    assert_eq!(mesh.children[0].position, vec3(1.0, 2.0, 3.0));
}

#[test]
fn rotate_adds_component_by_component() {
    let mut mesh = family();
    mesh.rotate(Quat::from_xyzw(0.25, 0.5, 0.0, 0.0));
    assert_eq!(mesh.rotation, Quat::from_xyzw(0.25, 0.5, 0.0, 1.0));
    assert_eq!(mesh.children[0].rotation, Quat::from_xyzw(0.75, 0.5, 0.0, 0.5));
    assert_eq!(mesh.children[0].children[0].rotation, Quat::from_xyzw(0.25, 0.5, 0.0, 1.0));
}
