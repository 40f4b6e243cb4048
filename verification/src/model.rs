//! Models: the meshes of one loaded object file, and how its flat attribute
//! arrays are cut into vertices.

use vstd::prelude::*;
use crate::mesh::{Mesh, MeshView};
use crate::mesh_geometry::{face_reversal_keeps_indices_in_range, is_face_reversal, reverse_faces};
use crate::texture::Texture;

verus! {

/// The attributes of one vertex, taken out of the flat arrays of a loaded
/// object. `S` is the scalar that the arrays are made of.
#[derive(Debug)]
pub struct VertexData<S> {
    pub position: (S, S, S),
    pub color: (S, S, S, S),
    pub tex_coords: (S, S),
    pub normal: (S, S, S),
}

/// Vertex `i` of an object with the flat arrays `positions`, `normals`,
/// `texcoords` and `colors`: three position scalars and two texture scalars
/// each; three normal scalars where the normals reach that far, else the
/// zero vector; three colour scalars where the colours reach that far, made
/// opaque, else opaque white.
pub open spec fn vertex_at<S>(
    positions: Seq<S>,
    normals: Seq<S>,
    texcoords: Seq<S>,
    colors: Seq<S>,
    zero: S,
    one: S,
    i: int,
) -> VertexData<S> {
    VertexData {
        position: (positions[3 * i], positions[3 * i + 1], positions[3 * i + 2]),
        tex_coords: (texcoords[2 * i], texcoords[2 * i + 1]),
        normal: if normals.len() >= (i + 1) * 3 {
            (normals[3 * i], normals[3 * i + 1], normals[3 * i + 2])
        } else {
            (zero, zero, zero)
        },
        color: if colors.len() >= (i + 1) * 3 {
            (colors[3 * i], colors[3 * i + 1], colors[3 * i + 2], one)
        } else {
            (one, one, one, one)
        },
    }
}

/// Cuts the flat arrays of a loaded object into its vertices. Every vertex
/// needs its texture coordinate.
pub fn assemble_vertices<S: Copy>(
    positions: &Vec<S>,
    normals: &Vec<S>,
    texcoords: &Vec<S>,
    colors: &Vec<S>,
    zero: S,
    one: S,
) -> (vertices: Vec<VertexData<S>>)
    requires
        texcoords@.len() >= 2 * (positions@.len() / 3),
    ensures
        vertices@.len() == positions@.len() / 3,
        forall|i: int|
            0 <= i < vertices@.len() ==> #[trigger] vertices@[i] == vertex_at(
                positions@,
                normals@,
                texcoords@,
                colors@,
                zero,
                one,
                i,
            ),
{
    let num_vertices: usize = positions.len() / 3;
    let mut vertices: Vec<VertexData<S>> = Vec::with_capacity(num_vertices);
    let mut i: usize = 0;
    while i < num_vertices
        invariant
            i <= num_vertices,
            num_vertices == positions@.len() / 3,
            positions@.len() <= usize::MAX,
            texcoords@.len() >= 2 * num_vertices,
            vertices@.len() == i,
            forall|j: int|
                0 <= j < i ==> #[trigger] vertices@[j] == vertex_at(
                    positions@,
                    normals@,
                    texcoords@,
                    colors@,
                    zero,
                    one,
                    j,
                ),
        decreases num_vertices - i,
    {
        assert(3 * num_vertices <= positions@.len()) by {
            vstd::arithmetic::div_mod::lemma_fundamental_div_mod(positions@.len() as int, 3);
        }
        let position = (positions[i * 3], positions[i * 3 + 1], positions[i * 3 + 2]);
        let tex_coords = (texcoords[i * 2], texcoords[i * 2 + 1]);
        let normal = if normals.len() >= (i + 1) * 3 {
            (normals[i * 3], normals[i * 3 + 1], normals[i * 3 + 2])
        } else {
            (zero, zero, zero)
        };
        let color = if colors.len() >= (i + 1) * 3 {
            (colors[i * 3], colors[i * 3 + 1], colors[i * 3 + 2], one)
        } else {
            (one, one, one, one)
        };
        vertices.push(VertexData { position, color, tex_coords, normal });
        i += 1;
    }
    vertices
}

/// The meshes of a loaded object and the textures it asks for.
pub struct Model {
    pub meshes: Vec<Mesh>,
    pub loaded_textures: Vec<Texture>,
}

impl Default for Model {
    fn default() -> (model: Self)
        ensures
            model.meshes@.len() == 0,
            model.loaded_textures@.len() == 0,
    {
        Model { meshes: Vec::new(), loaded_textures: Vec::new() }
    }
}

/// `after` is `before` with the winding of every pair of triangles turned
/// around, and nothing else changed.
pub open spec fn is_rewound(before: MeshView, after: MeshView) -> bool {
    &&& is_face_reversal(before.indices, after.indices)
    &&& after == (MeshView { indices: after.indices, ..before })
}

/// Turning the faces around names the same vertices as before.
pub proof fn rewinding_keeps_indices_valid(before: MeshView, after: MeshView)
    requires
        is_rewound(before, after),
        before.indices_valid(),
    ensures
        after.indices_valid(),
{
    face_reversal_keeps_indices_in_range(before.indices, after.indices, before.vertices.len() as int);
}

impl Model {
    /// Takes the meshes of a loaded object in, each with the winding of its
    /// faces turned around.
    pub fn load(&mut self, meshes: Vec<Mesh>)
        ensures
            final(self).loaded_textures == old(self).loaded_textures,
            final(self).meshes@.len() == old(self).meshes@.len() + meshes@.len(),
            forall|i: int|
                0 <= i < old(self).meshes@.len() ==> #[trigger] final(self).meshes@[i] == old(self).meshes@[i],
            forall|j: int|
                0 <= j < meshes@.len() ==> is_rewound(
                    #[trigger] meshes@[j]@,
                    final(self).meshes@[old(self).meshes@.len() + j]@,
                ),
    {
        let ghost start = self.meshes@.len();
        for mesh in source: meshes
            invariant
                source.seq() == meshes@,
                self.loaded_textures == old(self).loaded_textures,
                start == old(self).meshes@.len(),
                self.meshes@.len() == start + source.index(),
                forall|i: int| 0 <= i < start ==> #[trigger] self.meshes@[i] == old(self).meshes@[i],
                forall|j: int|
                    0 <= j < source.index() ==> is_rewound(
                        #[trigger] meshes@[j]@,
                        self.meshes@[start + j]@,
                    ),
        {
            let mut final_mesh = mesh;
            reverse_faces(&mut final_mesh.indices);
            self.meshes.push(final_mesh);
        }
    }

    /// Takes the meshes of a loaded object in as they are, and hands out a
    /// copy of mesh number `u` of the model.
    pub fn extract_mesh(&mut self, meshes: Vec<Mesh>, u: usize) -> (mesh: Mesh)
        requires
            u < old(self).meshes@.len() + meshes@.len(),
        ensures
            final(self).loaded_textures == old(self).loaded_textures,
            final(self).meshes@ == old(self).meshes@ + meshes@,
            mesh@ == final(self).meshes@[u as int]@,
    {
        let mut meshes = meshes;
        self.meshes.append(&mut meshes);
        self.meshes[u].clone()
    }

    /// Notes that the model uses the image at `path`.
    pub fn load_texture(&mut self, path: &str) -> (texture: Texture)
        ensures
            texture matches Texture::Path(p) && p@ == path@,
            final(self).meshes == old(self).meshes,
            final(self).loaded_textures@ == old(self).loaded_textures@.push(texture),
    {
        let texture = Texture::Path(path.to_owned());
        self.loaded_textures.push(texture.clone());
        texture
    }
}

} // verus!
