//! Where a shape's texture comes from.

use vstd::prelude::*;

verus! {

/// Where the texture of a shape comes from.
#[derive(PartialEq, Debug)]
pub enum Texture {
    /// An image file that has not been loaded yet.
    Path(String),
    /// The handle of a texture that the graphics context already holds.
    Loaded(u32),
    /// No texture at all.
    Unset,
}

impl Clone for Texture {
    fn clone(&self) -> (copy: Self)
        ensures
            copy == *self,
    {
        match self {
            Texture::Path(path) => Texture::Path(path.clone()),
            Texture::Loaded(handle) => Texture::Loaded(*handle),
            Texture::Unset => Texture::Unset,
        }
    }
}

} // verus!
