use crate::definitions::LayerDefinition;
use crate::definitions::Tileset;
use bevy::platform::collections::HashMap;
use vstd::prelude::*;

verus! {

/// The hash map of `bevy`, `bevy::platform::collections::HashMap`, as a type
/// that is carried through: nothing inside it is seen.
#[verifier::external_type_specification]
#[verifier::external_body]
#[verifier::reject_recursive_types(K)]
#[verifier::reject_recursive_types(V)]
#[verifier::reject_recursive_types(S)]
pub struct ExHashMap<K, V, S>(bevy::platform::collections::HashMap<K, V, S>);

/// The hasher that the hash map of `bevy` takes where none is named,
/// `bevy::platform::hash::FixedHasher`.
#[verifier::external_type_specification]
#[verifier::external_body]
pub struct ExFixedHasher(bevy::platform::hash::FixedHasher);

/// The tilesets that a map holds, by their identifiers.
pub uninterp spec fn tileset_entries(map: HashMap<i64, Tileset>) -> Map<i64, Tileset>;

/// The layer definitions that a map holds, by their identifiers.
pub uninterp spec fn layer_definition_entries(map: HashMap<i64, LayerDefinition>) -> Map<
    i64,
    LayerDefinition,
>;

/// The map that holds no tileset.
pub open spec fn no_tilesets() -> Map<i64, Tileset> {
    Map::empty()
}

/// The map that holds no layer definition.
pub open spec fn no_layer_definitions() -> Map<i64, LayerDefinition> {
    Map::empty()
}

/// Calls `HashMap::new`. Taken on trust: the new map holds nothing.
#[verifier::external_body]
pub(crate) fn new_tileset_map() -> (made: HashMap<i64, Tileset>)
    ensures
        tileset_entries(made) == no_tilesets(),
{
    HashMap::new()
}

/// Calls `HashMap::insert`. Taken on trust: afterwards the map holds
/// `tileset` under `id`, in the place of what it held there before, and
/// everything else as before.
#[verifier::external_body]
pub(crate) fn insert_tileset(map: &mut HashMap<i64, Tileset>, id: i64, tileset: Tileset)
    ensures
        tileset_entries(*final(map)) == tileset_entries(*old(map)).insert(id, tileset),
{
    map.insert(id, tileset);
}

/// Calls `HashMap::get`. Taken on trust: the result is what the map holds
/// under `id`, and `None` where it holds nothing there.
#[verifier::external_body]
pub(crate) fn get_tileset(map: &HashMap<i64, Tileset>, id: i64) -> (found: Option<&Tileset>)
    ensures
        found == (if tileset_entries(*map).contains_key(id) {
            Some(&tileset_entries(*map)[id])
        } else {
            None
        }),
{
    map.get(&id)
}

/// Calls `HashMap::new`. Taken on trust: the new map holds nothing.
#[verifier::external_body]
pub(crate) fn new_layer_definition_map() -> (made: HashMap<i64, LayerDefinition>)
    ensures
        layer_definition_entries(made) == no_layer_definitions(),
{
    HashMap::new()
}

/// Calls `HashMap::insert`. Taken on trust: afterwards the map holds
/// `definition` under `id`, in the place of what it held there before, and
/// everything else as before.
#[verifier::external_body]
pub(crate) fn insert_layer_definition(
    map: &mut HashMap<i64, LayerDefinition>,
    id: i64,
    definition: LayerDefinition,
)
    ensures
        layer_definition_entries(*final(map)) == layer_definition_entries(*old(map)).insert(
            id,
            definition,
        ),
{
    map.insert(id, definition);
}

/// Calls `HashMap::get`. Taken on trust: the result is what the map holds
/// under `id`, and `None` where it holds nothing there.
#[verifier::external_body]
pub(crate) fn get_layer_definition(map: &HashMap<i64, LayerDefinition>, id: i64) -> (found: Option<
    &LayerDefinition,
>)
    ensures
        found == (if layer_definition_entries(*map).contains_key(id) {
            Some(&layer_definition_entries(*map)[id])
        } else {
            None
        }),
{
    map.get(&id)
}

} // verus!
