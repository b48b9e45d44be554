//! The closed set of renderer backends the native library knows.

use vstd::prelude::*;
use crate::text::has_nul;

verus! {

/// A renderer backend, selected at renderer-creation time.
#[derive(Clone, Copy, Debug, PartialEq, Eq, Structural)]
pub enum SDL3RendererType {
    OpenGL,
    Vulkan,
    Metal,
    Direct3D,
}

impl SDL3RendererType {
    /// The backend's native string identifier.
    pub open spec fn spec_name(self) -> Seq<char> {
        match self {
            SDL3RendererType::OpenGL => "opengl"@,
            SDL3RendererType::Vulkan => "vulkan"@,
            SDL3RendererType::Metal => "metal"@,
            SDL3RendererType::Direct3D => "direct3d"@,
        }
    }

    /// Resolves the backend to its native string identifier.  The
    /// identifier never holds a nul character, so handing it to the native
    /// layer as a nul-terminated string cannot fail.
    pub fn get_renderer_name(&self) -> (r: &str)
        ensures
            r@ == self.spec_name(),
            !has_nul(r@),
    {
        proof {
            reveal_strlit("opengl");
            reveal_strlit("vulkan");
            reveal_strlit("metal");
            reveal_strlit("direct3d");
        }
        match self {
            SDL3RendererType::OpenGL => "opengl",
            SDL3RendererType::Vulkan => "vulkan",
            SDL3RendererType::Metal => "metal",
            SDL3RendererType::Direct3D => "direct3d",
        }
    }
}

} // verus!
