//! Meshes: a vertex buffer, an index buffer, a transform and the handles
//! under which the graphics context knows them.

use vstd::prelude::*;
use glam::{Quat, Vec2, Vec3, Vec4};
use crate::glam_types::{add_quat, add_vec3, mul_vec3, quat_sum, vec3_product, vec3_sum};
use crate::instance_mesh::{InstanceData, InstanceMesh};
use crate::mesh_geometry::indices_in_range;
use crate::renderer::Renderer;
use crate::shader::{Shader, ShaderSet, ShaderType};

verus! {

/// One corner of a triangle: where it is, its colour, its place on the
/// texture and the direction its surface faces.
#[derive(PartialEq, Debug, Clone, Copy)]
pub struct Vertex {
    pub position: Vec3,
    pub color: Vec4,
    pub tex_coords: Vec2,
    pub normal: Vec3,
}

impl Vertex {
    pub fn new(position: Vec3, color: Vec4, tex_coords: Vec2, normal: Vec3) -> (vertex: Self)
        ensures
            vertex == (Vertex { position, color, tex_coords, normal }),
    {
        Self { position, color, tex_coords, normal }
    }
}

/// Where a mesh stands, how it is turned and how large it is.
#[derive(PartialEq, Debug, Clone, Copy)]
pub struct Transform {
    pub position: Vec3,
    pub rotation: Quat,
    pub scale: Vec3,
}

/// A vertex and an index buffer with a transform, a texture and a shader;
/// meshes hang below one another.
#[allow(non_snake_case)]
#[derive(PartialEq, Debug)]
pub struct Mesh {
    pub vertices: Vec<Vertex>,
    pub indices: Vec<u32>,
    pub VAO: u32,
    pub EBO: u32,
    pub VBO: u32,
    pub position: Vec3,
    pub rotation: Quat,
    pub scale: Vec3,
    pub texture: u32,
    pub shader: Shader,
    pub parent: Option<Box<Mesh>>,
    pub children: Vec<Box<Mesh>>,
}

/// What a mesh holds, as plain mathematics: the buffers as sequences, the
/// parent and the children as values of this same kind.
pub struct MeshView {
    pub vertices: Seq<Vertex>,
    pub indices: Seq<u32>,
    pub vao: u32,
    pub ebo: u32,
    pub vbo: u32,
    pub position: Vec3,
    pub rotation: Quat,
    pub scale: Vec3,
    pub texture: u32,
    pub shader: Shader,
    pub parent: Option<Box<MeshView>>,
    pub children: Seq<MeshView>,
}

impl View for Mesh {
    type V = MeshView;

    open spec fn view(&self) -> MeshView {
        self.model()
    }
}

impl Mesh {
    /// The view of this mesh, parent and children included.
    pub open spec fn model(&self) -> MeshView
        decreases self,
    {
        MeshView {
            vertices: self.vertices@,
            indices: self.indices@,
            vao: self.VAO,
            ebo: self.EBO,
            vbo: self.VBO,
            position: self.position,
            rotation: self.rotation,
            scale: self.scale,
            texture: self.texture,
            shader: self.shader,
            parent: match self.parent {
                Some(parent) => Some(Box::new(parent.model())),
                None => None,
            },
            children: Seq::new(
                self.children@.len(),
                |i: int|
                    if 0 <= i < self.children@.len() {
                        self.children@[i].model()
                    } else {
                        arbitrary()
                    },
            ),
        }
    }

    /// A mesh of its own copies of `vertices` and `indices`, not yet known
    /// to the graphics context, without texture, parent or children.
    pub fn new(
        vertices: &Vec<Vertex>,
        indices: &Vec<u32>,
        transform: Transform,
        shader: Shader,
    ) -> (mesh: Self)
        ensures
            mesh@ == (MeshView {
                vertices: vertices@,
                indices: indices@,
                vao: 0,
                ebo: 0,
                vbo: 0,
                position: transform.position,
                rotation: transform.rotation,
                scale: transform.scale,
                texture: 0,
                shader,
                parent: None,
                children: Seq::empty(),
            }),
    {
        let mesh = Mesh {
            vertices: copy_of(vertices),
            indices: copy_of(indices),
            VAO: 0,
            VBO: 0,
            EBO: 0,
            position: transform.position,
            rotation: transform.rotation,
            scale: transform.scale,
            texture: 0,
            shader,
            parent: None,
            children: Vec::new(),
        };
        assert(mesh@.children =~= Seq::empty());
        mesh
    }

    /// Draws the mesh with the built-in program that `shader_type` names.
    pub fn set_shader_type(&mut self, shader_type: &ShaderType, shaders: &ShaderSet)
        ensures
            final(self)@ == (MeshView { shader: shaders.program(*shader_type), ..old(self)@ }),
    {
        self.shader = shaders.select(shader_type);
    }

    /// Makes `parent` the mesh that this one remembers as its parent.
    pub fn set_parent(&mut self, parent: Mesh)
        ensures
            final(self)@ == (MeshView { parent: Some(Box::new(parent@)), ..old(self)@ }),
    {
        self.parent = Some(Box::new(parent));
    }

    /// Hangs `child` below this mesh. The child remembers the mesh as it is
    /// at this moment, before the child was added.
    pub fn add_child(&mut self, child: Mesh)
        ensures
            final(self)@ == (MeshView {
                children: old(self)@.children.push(
                    MeshView { parent: Some(Box::new(old(self)@)), ..child@ },
                ),
                ..old(self)@
            }),
    {
        let mut child = child;
        child.set_parent(self.clone());
        self.children.push(Box::new(child));
        assert(self@.children =~= old(self)@.children.push(
            MeshView { parent: Some(Box::new(old(self)@)), ..child@ },
        ));
    }

    /// Covers the mesh with the texture that `renderer` keeps under
    /// `texture_name`.
    pub fn set_texture<P, C>(&mut self, texture_name: &str, renderer: &Renderer<P, C>)
        requires
            renderer.textures@.contains_key(texture_name@),
        ensures
            final(self)@ == (MeshView { texture: renderer.textures@[texture_name@], ..old(self)@ }),
    {
        self.texture = renderer.get_texture(texture_name.to_owned());
    }

    /// An instanced mesh of this mesh's geometry, drawn `n` times with the
    /// transforms `data`.
    pub fn to_instance(&self, data: Vec<InstanceData>, n: usize, shader: Shader) -> (instanced:
        InstanceMesh)
        ensures
            instanced.vertices@ == self.vertices@,
            instanced.indices@ == self.indices@,
            instanced.VAO == 0 && instanced.VBO == 0 && instanced.EBO == 0,
            instanced.instance_buffer == 0,
            instanced.n == n,
            instanced.instance_data == data,
            instanced.shader == shader,
    {
        let mut new_mesh = InstanceMesh::new(&self.vertices, &self.indices, n, shader);
        new_mesh.instance_data = data;
        new_mesh
    }

    /// Paints every vertex in `color`.
    pub fn set_color(&mut self, color: Vec4)
        ensures
            final(self)@ == (MeshView {
                vertices: old(self)@.vertices.map_values(|v: Vertex| Vertex { color, ..v }),
                ..old(self)@
            }),
    {
        let n: usize = self.vertices.len();
        let mut i: usize = 0;
        while i < n
            invariant
                i <= n,
                n == old(self).vertices@.len(),
                self.vertices@.len() == n,
                self@ == (MeshView { vertices: self.vertices@, ..old(self)@ }),
                forall|j: int|
                    0 <= j < i ==> #[trigger] self.vertices@[j] == (Vertex {
                        color,
                        ..old(self).vertices@[j]
                    }),
                forall|j: int| i <= j < n ==> #[trigger] self.vertices@[j] == old(self).vertices@[j],
            decreases n - i,
        {
            self.vertices[i].color = color;
            i += 1;
        }
        assert(self.vertices@ =~= old(self)@.vertices.map_values(|v: Vertex| Vertex { color, ..v }));
    }

    /// Moves this mesh to `position`, and every mesh below it by `position`
    /// from where it stands.
    pub fn set_position(&mut self, position: Vec3)
        ensures
            final(self)@ == old(self)@.moved_to(position),
        decreases *old(self),
    {
        self.position = position;
        let n: usize = self.children.len();
        let mut i: usize = 0;
        while i < n
            invariant
                i <= n,
                n == old(self).children@.len(),
                self.children@.len() == n,
                self@ == (MeshView {
                    position: old(self)@.moved_to(position).position,
                    children: self@.children,
                    ..old(self)@
                }),
                forall|j: int|
                    0 <= j < i ==> (#[trigger] self.children@[j])@ == old(self)@.moved_to(
                        position,
                    ).children[j],
                forall|j: int| i <= j < n ==> #[trigger] self.children@[j] == old(self).children@[j],
            decreases n - i,
        {
            let child_position = add_vec3(position, self.children[i].position);
            self.children[i].set_position(child_position);
            i += 1;
        }
        assert(self@.children =~= old(self)@.moved_to(position).children);
    }

    /// Moves this mesh and every mesh below it by `position`.
    pub fn add_position(&mut self, position: Vec3)
        ensures
            final(self)@ == old(self)@.moved_by(position),
        decreases *old(self),
    {
        self.position = add_vec3(self.position, position);
        let n: usize = self.children.len();
        let mut i: usize = 0;
        while i < n
            invariant
                i <= n,
                n == old(self).children@.len(),
                self.children@.len() == n,
                self@ == (MeshView {
                    position: old(self)@.moved_by(position).position,
                    children: self@.children,
                    ..old(self)@
                }),
                forall|j: int|
                    0 <= j < i ==> (#[trigger] self.children@[j])@ == old(self)@.moved_by(
                        position,
                    ).children[j],
                forall|j: int| i <= j < n ==> #[trigger] self.children@[j] == old(self).children@[j],
            decreases n - i,
        {
            self.children[i].add_position(position);
            i += 1;
        }
        assert(self@.children =~= old(self)@.moved_by(position).children);
    }

    /// Makes this mesh and every mesh below it larger by `scale`, axis by
    /// axis.
    pub fn scale(&mut self, scale: Vec3)
        ensures
            final(self)@ == old(self)@.scaled_by(scale),
        decreases *old(self),
    {
        self.scale = mul_vec3(self.scale, scale);
        let n: usize = self.children.len();
        let mut i: usize = 0;
        while i < n
            invariant
                i <= n,
                n == old(self).children@.len(),
                self.children@.len() == n,
                self@ == (MeshView {
                    scale: old(self)@.scaled_by(scale).scale,
                    children: self@.children,
                    ..old(self)@
                }),
                forall|j: int|
                    0 <= j < i ==> (#[trigger] self.children@[j])@ == old(self)@.scaled_by(
                        scale,
                    ).children[j],
                forall|j: int| i <= j < n ==> #[trigger] self.children@[j] == old(self).children@[j],
            decreases n - i,
        {
            self.children[i].scale(scale);
            i += 1;
        }
        assert(self@.children =~= old(self)@.scaled_by(scale).children);
    }

    /// Adds `rotation` to the rotation of this mesh and of every mesh below
    /// it.
    pub fn rotate(&mut self, rotation: Quat)
        ensures
            final(self)@ == old(self)@.turned_by(rotation),
        decreases *old(self),
    {
        self.rotation = add_quat(self.rotation, rotation);
        let n: usize = self.children.len();
        let mut i: usize = 0;
        while i < n
            invariant
                i <= n,
                n == old(self).children@.len(),
                self.children@.len() == n,
                self@ == (MeshView {
                    rotation: old(self)@.turned_by(rotation).rotation,
                    children: self@.children,
                    ..old(self)@
                }),
                forall|j: int|
                    0 <= j < i ==> (#[trigger] self.children@[j])@ == old(self)@.turned_by(
                        rotation,
                    ).children[j],
                forall|j: int| i <= j < n ==> #[trigger] self.children@[j] == old(self).children@[j],
            decreases n - i,
        {
            self.children[i].rotate(rotation);
            i += 1;
        }
        assert(self@.children =~= old(self)@.turned_by(rotation).children);
    }

    /// Gives this mesh and every mesh below it the size `scale`.
    pub fn set_scale(&mut self, scale: Vec3)
        ensures
            final(self)@ == old(self)@.with_scale(scale),
        decreases *old(self),
    {
        self.scale = scale;
        let n: usize = self.children.len();
        let mut i: usize = 0;
        while i < n
            invariant
                i <= n,
                n == old(self).children@.len(),
                self.children@.len() == n,
                self@ == (MeshView { scale, children: self@.children, ..old(self)@ }),
                forall|j: int|
                    0 <= j < i ==> (#[trigger] self.children@[j])@ == old(self).children@[j]@.with_scale(
                        scale,
                    ),
                forall|j: int| i <= j < n ==> #[trigger] self.children@[j] == old(self).children@[j],
            decreases n - i,
        {
            self.children[i].set_scale(scale);
            i += 1;
        }
        assert(self@.children =~= old(self)@.with_scale(scale).children);
    }

    /// Turns this mesh and every mesh below it to `rotation`.
    pub fn set_rotation(&mut self, rotation: Quat)
        ensures
            final(self)@ == old(self)@.with_rotation(rotation),
        decreases *old(self),
    {
        self.rotation = rotation;
        let n: usize = self.children.len();
        let mut i: usize = 0;
        while i < n
            invariant
                i <= n,
                n == old(self).children@.len(),
                self.children@.len() == n,
                self@ == (MeshView { rotation, children: self@.children, ..old(self)@ }),
                forall|j: int|
                    0 <= j < i ==> (#[trigger] self.children@[j])@ == old(self).children@[j]@.with_rotation(rotation),
                forall|j: int| i <= j < n ==> #[trigger] self.children@[j] == old(self).children@[j],
            decreases n - i,
        {
            self.children[i].set_rotation(rotation);
            i += 1;
        }
        assert(self@.children =~= old(self)@.with_rotation(rotation).children);
    }
}

impl MeshView {
    /// Every index names a vertex of this mesh.
    pub open spec fn indices_valid(self) -> bool {
        indices_in_range(self.indices, self.vertices.len() as int)
    }

    /// This mesh at `position`, and every mesh below it moved by `position`
    /// from where it stands.
    pub open spec fn moved_to(self, position: Vec3) -> MeshView
        decreases self,
    {
        MeshView {
            position,
            children: Seq::new(
                self.children.len(),
                |i: int|
                    if 0 <= i < self.children.len() {
                        self.children[i].moved_to(vec3_sum(position, self.children[i].position))
                    } else {
                        arbitrary()
                    },
            ),
            ..self
        }
    }

    /// This mesh moved by `offset`, and so every mesh below it.
    pub open spec fn moved_by(self, offset: Vec3) -> MeshView
        decreases self,
    {
        MeshView {
            position: vec3_sum(self.position, offset),
            children: Seq::new(
                self.children.len(),
                |i: int|
                    if 0 <= i < self.children.len() {
                        self.children[i].moved_by(offset)
                    } else {
                        arbitrary()
                    },
            ),
            ..self
        }
    }

    /// This mesh made larger by `factor`, and so every mesh below it.
    pub open spec fn scaled_by(self, factor: Vec3) -> MeshView
        decreases self,
    {
        MeshView {
            scale: vec3_product(self.scale, factor),
            children: Seq::new(
                self.children.len(),
                |i: int|
                    if 0 <= i < self.children.len() {
                        self.children[i].scaled_by(factor)
                    } else {
                        arbitrary()
                    },
            ),
            ..self
        }
    }

    /// This mesh with `rotation` added to its rotation, and so every mesh
    /// below it.
    pub open spec fn turned_by(self, rotation: Quat) -> MeshView
        decreases self,
    {
        MeshView {
            rotation: quat_sum(self.rotation, rotation),
            children: Seq::new(
                self.children.len(),
                |i: int|
                    if 0 <= i < self.children.len() {
                        self.children[i].turned_by(rotation)
                    } else {
                        arbitrary()
                    },
            ),
            ..self
        }
    }

    /// This mesh turned to `rotation`, and so every mesh below it.
    pub open spec fn with_rotation(self, rotation: Quat) -> MeshView
        decreases self,
    {
        MeshView {
            rotation,
            children: Seq::new(
                self.children.len(),
                |i: int|
                    if 0 <= i < self.children.len() {
                        self.children[i].with_rotation(rotation)
                    } else {
                        arbitrary()
                    },
            ),
            ..self
        }
    }

    /// This mesh with the size `scale`, and so every mesh below it.
    pub open spec fn with_scale(self, scale: Vec3) -> MeshView
        decreases self,
    {
        MeshView {
            scale,
            children: Seq::new(
                self.children.len(),
                |i: int|
                    if 0 <= i < self.children.len() {
                        self.children[i].with_scale(scale)
                    } else {
                        arbitrary()
                    },
            ),
            ..self
        }
    }
}

impl Clone for Mesh {
    fn clone(&self) -> (copy: Self)
        ensures
            copy@ == self@,
        decreases self,
    {
        let parent: Option<Box<Mesh>> = match &self.parent {
            Some(parent) => Some(Box::new((&**parent).clone())),
            None => None,
        };
        let mut children: Vec<Box<Mesh>> = Vec::new();
        let mut i: usize = 0;
        while i < self.children.len()
            invariant
                i <= self.children.len(),
                children@.len() == i,
                forall|j: int| 0 <= j < i ==> (#[trigger] children@[j])@ == self.children@[j]@,
            decreases self.children.len() - i,
        {
            children.push(Box::new((&*self.children[i]).clone()));
            i += 1;
        }
        let copy = Mesh {
            vertices: copy_of(&self.vertices),
            indices: copy_of(&self.indices),
            VAO: self.VAO,
            VBO: self.VBO,
            EBO: self.EBO,
            position: self.position,
            rotation: self.rotation,
            scale: self.scale,
            texture: self.texture,
            shader: self.shader,
            parent,
            children,
        };
        assert(copy@.children =~= self@.children);
        copy
    }
}

/// A vector of its own with the items of `items`.
pub(crate) fn copy_of<T: Copy>(items: &Vec<T>) -> (copy: Vec<T>)
    ensures
        copy@ == items@,
{
    let mut copy: Vec<T> = Vec::new();
    let mut i: usize = 0;
    while i < items.len()
        invariant
            i <= items.len(),
            copy@ == items@.subrange(0, i as int),
        decreases items.len() - i,
    {
        copy.push(items[i]);
        assert(copy@ =~= items@.subrange(0, i + 1));
        i += 1;
    }
    assert(copy@ =~= items@);
    copy
}

} // verus!
