//! The renderer: a flat registry of everything a frame draws, by name.

use vstd::prelude::*;
use vstd::string::StringExecFns;
use crate::instance_mesh::InstanceMesh;
use crate::light::Light;
use crate::mesh::{Mesh, MeshView, Transform, Vertex};
use crate::model::Model;
use crate::registry::Registry;
use crate::shader::Shader;

verus! {

/// What adding a mesh under a name that is taken reports.
pub open spec fn mesh_exists_message(name: Seq<char>) -> Seq<char> {
    "Mesh with name '"@ + name + "' already exists"@
}

/// What destroying a mesh under a name that is unknown reports.
pub open spec fn mesh_missing_message(name: Seq<char>) -> Seq<char> {
    "No mesh found with name '"@ + name + "'"@
}

fn mesh_exists(name: &str) -> (message: String)
    ensures
        message@ == mesh_exists_message(name@),
{
    let mut message = String::from_str("Mesh with name '");
    message.append(name);
    message.append("' already exists");
    message
}

fn mesh_missing(name: &str) -> (message: String)
    ensures
        message@ == mesh_missing_message(name@),
{
    let mut message = String::from_str("No mesh found with name '");
    message.append(name);
    message.append("'");
    message
}

/// The scene of a frame. `P` is the kind of particle emitter and `C` the
/// camera; the renderer keeps both and looks into neither.
pub struct Renderer<P, C> {
    pub models: Registry<Model>,
    pub meshes: Registry<Mesh>,
    pub instance_meshes: Registry<InstanceMesh>,
    pub lights: Registry<Light>,
    pub particles: Registry<P>,
    pub camera: C,
    pub textures: Registry<u32>,
}

impl<P, C> Renderer<P, C> {
    /// An empty scene seen through `camera`.
    pub fn new(camera: C) -> (renderer: Self)
        ensures
            renderer.models@ == Map::<Seq<char>, Model>::empty(),
            renderer.meshes@ == Map::<Seq<char>, Mesh>::empty(),
            renderer.instance_meshes@ == Map::<Seq<char>, InstanceMesh>::empty(),
            renderer.lights@ == Map::<Seq<char>, Light>::empty(),
            renderer.lights.names() == Seq::<Seq<char>>::empty(),
            renderer.lights.items() == Seq::<Light>::empty(),
            renderer.particles@ == Map::<Seq<char>, P>::empty(),
            renderer.textures@ == Map::<Seq<char>, u32>::empty(),
            renderer.camera == camera,
    {
        Renderer {
            models: Registry::new(),
            meshes: Registry::new(),
            instance_meshes: Registry::new(),
            lights: Registry::new(),
            particles: Registry::new(),
            camera,
            textures: Registry::new(),
        }
    }

    /// Keeps the handle `texture` of a loaded image under `texture_name`,
    /// in place of any handle that the name had.
    pub fn add_texture(&mut self, texture_name: String, texture: u32)
        ensures
            final(self).textures@ == old(self).textures@.insert(texture_name@, texture),
            *final(self) == (Renderer { textures: final(self).textures, ..*old(self) }),
    {
        self.textures.insert(texture_name.as_str(), texture);
    }

    /// Whether a texture is kept under `texture_name`.
    pub fn has_texture(&self, texture_name: &str) -> (present: bool)
        ensures
            present == self.textures@.contains_key(texture_name@),
    {
        self.textures.contains_key(texture_name)
    }

    /// The handle of the texture kept under `texture_name`.
    pub fn get_texture(&self, texture_name: String) -> (texture: u32)
        requires
            self.textures@.contains_key(texture_name@),
        ensures
            texture == self.textures@[texture_name@],
    {
        *self.textures.get(texture_name.as_str()).unwrap()
    }

    /// Builds a mesh of `vertices` and `indices` and adds it under `name`,
    /// unless the name is taken.
    pub fn add_mesh_from_vertices_and_indices(
        &mut self,
        name: &str,
        vertices: Vec<Vertex>,
        indices: Vec<u32>,
        transform: Transform,
        shader: Shader,
    ) -> (result: Result<(), String>)
        ensures
            *final(self) == (Renderer { meshes: final(self).meshes, ..*old(self) }),
            match result {
                Ok(_) => {
                    &&& !old(self).meshes@.contains_key(name@)
                    &&& final(self).meshes@ == old(self).meshes@.insert(
                        name@,
                        final(self).meshes@[name@],
                    )
                    &&& final(self).meshes@[name@]@ == (MeshView {
                        vertices: vertices@,
                        indices: indices@,
                        vao: 0,
                        ebo: 0,
                        vbo: 0,
                        position: transform.position,
                        rotation: transform.rotation,
                        scale: transform.scale,
                        texture: 0,
                        shader,
                        parent: None,
                        children: Seq::empty(),
                    })
                },
                Err(message) => {
                    &&& old(self).meshes@.contains_key(name@)
                    &&& *final(self) == *old(self)
                    &&& message@ == mesh_exists_message(name@)
                },
            },
    {
        if self.meshes.contains_key(name) {
            return Err(mesh_exists(name));
        }
        let mesh = Mesh::new(&vertices, &indices, transform, shader);
        self.meshes.insert(name, mesh);
        Ok(())
    }

    /// Adds `mesh` under `name`, unless the name is taken.
    pub fn add_mesh(&mut self, name: &str, mesh: Mesh) -> (result: Result<(), String>)
        ensures
            *final(self) == (Renderer { meshes: final(self).meshes, ..*old(self) }),
            match result {
                Ok(_) => {
                    &&& !old(self).meshes@.contains_key(name@)
                    &&& final(self).meshes@ == old(self).meshes@.insert(name@, mesh)
                },
                Err(message) => {
                    &&& old(self).meshes@.contains_key(name@)
                    &&& *final(self) == *old(self)
                    &&& message@ == mesh_exists_message(name@)
                },
            },
    {
        if self.meshes.contains_key(name) {
            return Err(mesh_exists(name));
        }
        self.meshes.insert(name, mesh);
        Ok(())
    }

    /// The mesh under `name`, to be changed in place.
    pub fn get_mesh_mut(&mut self, name: &str) -> (mesh: Option<&mut Mesh>)
        ensures
            *final(self) == (Renderer { meshes: final(self).meshes, ..*old(self) }),
            match mesh {
                Some(slot) => {
                    &&& old(self).meshes@.contains_key(name@)
                    &&& *slot == old(self).meshes@[name@]
                    &&& final(self).meshes@ == old(self).meshes@.insert(name@, *final(slot))
                },
                None => !old(self).meshes@.contains_key(name@) && *final(self) == *old(self),
            },
    {
        self.meshes.get_mut(name)
    }

    /// The mesh under `name`.
    pub fn get_mesh(&self, name: &str) -> (mesh: Option<&Mesh>)
        ensures
            mesh == if self.meshes@.contains_key(name@) {
                Some(&self.meshes@[name@])
            } else {
                None
            },
    {
        self.meshes.get(name)
    }

    /// Takes the mesh under `name` out of the scene, if there is one.
    pub fn destroy_mesh(&mut self, name: &str) -> (result: Result<(), String>)
        ensures
            *final(self) == (Renderer { meshes: final(self).meshes, ..*old(self) }),
            final(self).meshes@ == old(self).meshes@.remove(name@),
            match result {
                Ok(_) => old(self).meshes@.contains_key(name@),
                Err(message) => {
                    &&& !old(self).meshes@.contains_key(name@)
                    &&& *final(self) == *old(self)
                    &&& message@ == mesh_missing_message(name@)
                },
            },
    {
        if self.meshes.remove(name).is_some() {
            Ok(())
        } else {
            Err(mesh_missing(name))
        }
    }

    /// Adds the instanced mesh `mesh` under `name`, unless the name is taken.
    pub fn add_instance_mesh(&mut self, name: &str, mesh: InstanceMesh) -> (result: Result<(), String>)
        ensures
            *final(self) == (Renderer { instance_meshes: final(self).instance_meshes, ..*old(self) }),
            match result {
                Ok(_) => {
                    &&& !old(self).instance_meshes@.contains_key(name@)
                    &&& final(self).instance_meshes@ == old(self).instance_meshes@.insert(name@, mesh)
                },
                Err(message) => {
                    &&& old(self).instance_meshes@.contains_key(name@)
                    &&& *final(self) == *old(self)
                    &&& message@ == mesh_exists_message(name@)
                },
            },
    {
        if self.instance_meshes.contains_key(name) {
            return Err(mesh_exists(name));
        }
        self.instance_meshes.insert(name, mesh);
        Ok(())
    }

    /// Puts `light` under `name`, in place of any light that the name had.
    /// A light under a new name is the last of the lights; one that takes
    /// the place of another takes its number.
    pub fn add_light(&mut self, name: &str, light: Light)
        ensures
            *final(self) == (Renderer { lights: final(self).lights, ..*old(self) }),
            final(self).lights@ == old(self).lights@.insert(name@, light),
            old(self).lights@.contains_key(name@) ==> final(self).lights.names() == old(self).lights.names() && final(self).lights.items() == old(self).lights.items().update(
                old(self).lights.names().index_of(name@),
                light,
            ),
            !old(self).lights@.contains_key(name@) ==> final(self).lights.names() == old(self).lights.names().push(name@) && final(self).lights.items() == old(self).lights.items().push(light),
    {
        self.lights.insert(name, light);
    }

    /// Puts `model` under `name`, in place of any model that the name had.
    pub fn add_model(&mut self, name: &str, model: Model)
        ensures
            *final(self) == (Renderer { models: final(self).models, ..*old(self) }),
            final(self).models@ == old(self).models@.insert(name@, model),
    {
        self.models.insert(name, model);
    }

    /// The model under `name`.
    pub fn get_model(&self, name: &str) -> (model: Option<&Model>)
        ensures
            model == if self.models@.contains_key(name@) {
                Some(&self.models@[name@])
            } else {
                None
            },
    {
        self.models.get(name)
    }

    /// The model under `name`, to be changed in place.
    pub fn get_model_mut(&mut self, name: &str) -> (model: Option<&mut Model>)
        ensures
            *final(self) == (Renderer { models: final(self).models, ..*old(self) }),
            match model {
                Some(slot) => {
                    &&& old(self).models@.contains_key(name@)
                    &&& *slot == old(self).models@[name@]
                    &&& final(self).models@ == old(self).models@.insert(name@, *final(slot))
                },
                None => !old(self).models@.contains_key(name@) && *final(self) == *old(self),
            },
    {
        self.models.get_mut(name)
    }

    /// Puts the emitter `particle` under `name`, in place of any emitter
    /// that the name had.
    pub fn add_particle(&mut self, name: &str, particle: P)
        ensures
            *final(self) == (Renderer { particles: final(self).particles, ..*old(self) }),
            final(self).particles@ == old(self).particles@.insert(name@, particle),
    {
        self.particles.insert(name, particle);
    }

    /// Takes the emitter under `name` out of the scene and hands it back,
    /// so that the caller can give up what it holds of the graphics
    /// context.
    pub fn remove_particle(&mut self, name: &str) -> (particle: P)
        requires
            old(self).particles@.contains_key(name@),
        ensures
            *final(self) == (Renderer { particles: final(self).particles, ..*old(self) }),
            final(self).particles@ == old(self).particles@.remove(name@),
            particle == old(self).particles@[name@],
    {
        let removed = self.particles.remove(name);
        removed.unwrap()
    }
}

} // verus!
