//! A small framework for real-time 3D scenes: the shapes, the scene registry
//! and the window state that a frame is drawn from.

pub mod debug_text;
pub mod events;
pub mod font;
pub mod glam_types;
pub mod instance_mesh;
pub mod light;
pub mod mesh;
pub mod mesh_geometry;
pub mod model;
pub mod registry;
pub mod renderer;
pub mod shader;
pub mod texture;

pub use debug_text::{blank, breaks, debug_lines, debug_text};
pub use events::{Action, EventHandler, EventState, InputEvent, MouseButton, KEY_ESCAPE};
pub use font::{Character, Font, PlacedGlyph, GLYPH_COUNT};
pub use instance_mesh::{InstanceData, InstanceMesh};
pub use light::{Light, LightUniform};
pub use mesh::{Mesh, MeshView, Transform, Vertex};
pub use mesh_geometry::{
    circle_indices, cuboid_corners, cuboid_indices, fix_iterations, quad_corners, quad_indices,
    reverse_faces, sphere_indices, sphere_lattice, triangle_indices, Corner, CUBOID_VERTEX_COUNT,
    MAX_SPHERE_ITERATIONS, QUAD_VERTEX_COUNT, TRIANGLE_VERTEX_COUNT,
};
pub use model::{assemble_vertices, Model, VertexData};
pub use registry::Registry;
pub use renderer::Renderer;
pub use shader::{Shader, ShaderSet, ShaderType};
pub use texture::Texture;

pub use glam;
