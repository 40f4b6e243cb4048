//! Meshes that are drawn many times in one call, each time with a transform
//! of its own.

use vstd::prelude::*;
use glam::Vec4;
use crate::mesh::{copy_of, Vertex};
use crate::shader::Shader;

verus! {

/// The model matrix of one instance. The graphics interface takes a matrix
/// attribute one column at a time, so it is kept as its four columns.
#[derive(PartialEq, Debug, Copy, Clone)]
pub struct InstanceData {
    pub x_axis: Vec4,
    pub y_axis: Vec4,
    pub z_axis: Vec4,
    pub w_axis: Vec4,
}

/// A vertex and an index buffer drawn `n` times in one call.
#[allow(non_snake_case)]
#[derive(PartialEq, Debug)]
pub struct InstanceMesh {
    pub vertices: Vec<Vertex>,
    pub indices: Vec<u32>,
    pub VAO: u32,
    pub EBO: u32,
    pub VBO: u32,
    pub instance_buffer: u32,
    /// How many instances a draw call asks for.
    pub n: usize,
    pub instance_data: Vec<InstanceData>,
    pub shader: Shader,
}

impl InstanceMesh {
    /// An instanced mesh of its own copies of `vertices` and `indices`, not
    /// yet known to the graphics context and without instance transforms.
    pub fn new(vertices: &Vec<Vertex>, indices: &Vec<u32>, n: usize, shader: Shader) -> (mesh: Self)
        ensures
            mesh.vertices@ == vertices@,
            mesh.indices@ == indices@,
            mesh.VAO == 0 && mesh.VBO == 0 && mesh.EBO == 0,
            mesh.instance_buffer == 0,
            mesh.n == n,
            mesh.instance_data@ == Seq::<InstanceData>::empty(),
            mesh.shader == shader,
    {
        InstanceMesh {
            vertices: copy_of(vertices),
            indices: copy_of(indices),
            VAO: 0,
            VBO: 0,
            EBO: 0,
            instance_buffer: 0,
            n,
            instance_data: Vec::new(),
            shader,
        }
    }
}

} // verus!
