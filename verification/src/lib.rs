//! Blackout: a material extension that hides every surface no visibility
//! caster can see.
//!
//! A visibility caster is a point light whose colour is black. It lights
//! nothing; it only marks what can be seen from where it stands. A surface
//! drawn with the blackout material is discarded, fragment by fragment,
//! wherever no such light reaches it.
//!
//! This crate holds the part of that arrangement which can be stated and
//! proved: which shader asset the material's fragment stage refers to, and
//! that the plugin registers the shader under exactly that id. The calls into
//! the engine that do the registering are believed, not proved; each says so.
use vstd::prelude::*;

pub mod material;
pub mod plugin;

pub use material::BlackoutExt;
pub use material::ShaderRef;
pub use plugin::BlackoutPlugin;

verus! {

/// The 128-bit id of the weak asset handle under which the blackout fragment
/// shader is registered, and by which the material refers to it.
pub const SHADER_HANDLE_ID: u128 = 5738253885312041122;

} // verus!
