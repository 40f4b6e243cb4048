//! Shader programs, by the handle that the graphics context gave them.

use vstd::prelude::*;

verus! {

/// A linked shader program.
#[derive(PartialEq, Eq, Debug, Clone, Copy)]
pub struct Shader {
    pub id: u32,
}

/// Which of the built-in programs a mesh is drawn with.
#[derive(PartialEq, Eq, Debug, Clone, Copy)]
pub enum ShaderType {
    /// Vertex colours and an optional texture, unlit.
    Default,
    /// Lit by the renderer's point lights.
    Light,
    /// Textured and lit.
    Full,
}

/// The built-in programs, once compiled.
#[derive(PartialEq, Eq, Debug, Clone, Copy)]
pub struct ShaderSet {
    pub default: Shader,
    pub light: Shader,
    pub full: Shader,
}

impl ShaderSet {
    /// The program that `shader_type` stands for.
    pub open spec fn program(&self, shader_type: ShaderType) -> Shader {
        match shader_type {
            ShaderType::Default => self.default,
            ShaderType::Light => self.light,
            ShaderType::Full => self.full,
        }
    }

    pub fn select(&self, shader_type: &ShaderType) -> (shader: Shader)
        ensures
            shader == self.program(*shader_type),
    {
        match shader_type {
            ShaderType::Default => self.default,
            ShaderType::Light => self.light,
            ShaderType::Full => self.full,
        }
    }
}

} // verus!
