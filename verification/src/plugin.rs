use vstd::prelude::*;

use bevy_app::App;
use bevy_asset::Assets;
use bevy_asset::Handle;
use bevy_render::render_resource::Shader;

use crate::material::BlackoutExt;
use crate::SHADER_HANDLE_ID;

verus! {

/// The engine's app, carried through as an opaque value. What the contracts
/// below say of it, they say through the three names that follow.
#[verifier::external_type_specification]
#[verifier::external_body]
pub struct ExApp(bevy_app::App);

/// Whether the app's main world holds a shader store, the resource
/// `Assets<Shader>`.
pub uninterp spec fn shader_store_present(app: bevy_app::App) -> bool;

/// The source text of each shader with a textual source that the app's shader
/// store holds under a 128-bit id, by that id. Shaders that the store holds
/// under an index of its own are not in this map.
pub uninterp spec fn shader_sources(app: bevy_app::App) -> Map<u128, Seq<char>>;

/// The path recorded with each shader that the app's shader store holds under
/// a 128-bit id, by that id.
pub uninterp spec fn shader_paths(app: bevy_app::App) -> Map<u128, Seq<char>>;

/// `World::contains_resource::<Assets<Shader>>` on the app's main world.
///
/// Not proved: that the answer is what `shader_store_present` names. The
/// call reads the world and changes nothing.
#[verifier::external_body]
fn has_shader_store(app: &App) -> (present: bool)
    ensures
        present == shader_store_present(*app),
{
    app.world().contains_resource::<Assets<Shader>>()
}

/// `Assets::<Shader>::insert`, on the store that `World::resource_mut` hands
/// out, of the shader that `Shader::from_wgsl` makes of `source` and `path`,
/// under the id of `Handle::weak_from_u128(id)`.
///
/// Not proved: that the store then holds, under `id`, a shader with exactly
/// this text and this path, in place of what it held there before, and holds
/// under every other id what it held before. `resource_mut` panics where the
/// store is absent, which `requires` leaves out. `from_wgsl` scans the text
/// for import directives and keeps the text whole whether or not that scan
/// succeeds.
#[verifier::external_body]
fn insert_wgsl_shader(app: &mut App, id: u128, source: &str, path: &str)
    requires
        shader_store_present(*old(app)),
    ensures
        shader_store_present(*final(app)),
        shader_sources(*final(app)) == shader_sources(*old(app)).insert(id, source@),
        shader_paths(*final(app)) == shader_paths(*old(app)).insert(id, path@),
{
    let shader = Shader::from_wgsl(source.to_owned(), path.to_owned());
    let handle = Handle::<Shader>::weak_from_u128(id);
    app.world_mut().resource_mut::<Assets<Shader>>().insert(handle.id(), shader);
}

/// Marker for the plugin that registers the blackout shader and the blackout
/// material with an app.
pub struct BlackoutPlugin;

impl BlackoutPlugin {
    /// The first step of building the plugin: puts the blackout shader, given
    /// as WGSL text with the path it was taken from, into the app's shader
    /// store under [`SHADER_HANDLE_ID`], the id by which
    /// [`BlackoutExt::fragment_shader`](crate::BlackoutExt::fragment_shader)
    /// refers to it. A shader already stored under that id is replaced, and
    /// every other shader stays as it was. From then on the material's
    /// fragment stage finds exactly this text in the store.
    ///
    /// Returns whether the app has a shader store. Without one nothing is
    /// registered and the app is left as it was.
    pub fn register_shader(&self, app: &mut App, source: &str, path: &str) -> (stored: bool)
        ensures
            stored == shader_store_present(*old(app)),
            stored ==> shader_store_present(*final(app)),
            stored ==> shader_sources(*final(app)) == shader_sources(*old(app)).insert(
                SHADER_HANDLE_ID,
                source@,
            ),
            stored ==> shader_paths(*final(app)) == shader_paths(*old(app)).insert(
                SHADER_HANDLE_ID,
                path@,
            ),
            stored ==> BlackoutExt::fragment_stage().registered_text(shader_sources(*final(app)))
                == Some(source@),
            !stored ==> *final(app) == *old(app),
    {
        if has_shader_store(app) {
            insert_wgsl_shader(app, SHADER_HANDLE_ID, source, path);
            true
        } else {
            false
        }
    }
}

} // verus!
