use vstd::prelude::*;

use crate::SHADER_HANDLE_ID;

verus! {

/// Where the renderer finds the shader for one stage of a material.
#[derive(Clone, Copy, Debug, PartialEq, Eq, Structural)]
pub enum ShaderRef {
    /// The stage is left to the base material's own shader.
    Default,
    /// The shader asset registered under the weak handle with this id.
    Handle(u128),
}

/// Extension to the standard material that discards fragments which aren't
/// visible to any visibility caster (a point light with its colour set to
/// black).
///
/// The extension carries no data of its own: every parameter of the surface
/// comes from the base material.
#[derive(Default, Clone, Copy, Debug, PartialEq, Eq, Structural)]
pub struct BlackoutExt {}

impl ShaderRef {
    /// The text that this reference finds in a shader store holding `sources`:
    /// what is stored under the handle's id, and nothing for the base
    /// material's own shader, which is not looked up in the store.
    pub open spec fn registered_text(self, sources: Map<u128, Seq<char>>) -> Option<Seq<char>> {
        match self {
            ShaderRef::Default => None,
            ShaderRef::Handle(id) => if sources.contains_key(id) {
                Some(sources[id])
            } else {
                None
            },
        }
    }
}

impl BlackoutExt {
    /// The fragment stage of the extended material.
    pub open spec fn fragment_stage() -> ShaderRef {
        ShaderRef::Handle(SHADER_HANDLE_ID)
    }

    /// The fragment stage of the extended material: always the blackout
    /// shader, looked up by its fixed handle, never the base material's own.
    pub fn fragment_shader() -> (shader: ShaderRef)
        ensures
            shader == ShaderRef::Handle(SHADER_HANDLE_ID),
            shader == Self::fragment_stage(),
    {
        ShaderRef::Handle(SHADER_HANDLE_ID)
    }
}

} // verus!
