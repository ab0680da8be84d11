use crate::color::color_of_hex;
use crate::definitions::copy_text;
use crate::definitions::layer_definition_of;
use crate::definitions::text_of;
use crate::definitions::tileset_of;
use crate::definitions::LayerDefinition;
use crate::definitions::LayerDefinitionView;
use crate::definitions::Tileset;
use crate::definitions::TilesetView;
use crate::color::Rgb;
use crate::coords::as_coordinate;
use crate::coords::flip_offset;
use crate::coords::offset_flipped;
use crate::coords::IVec2;
use crate::document::LayerDef;
use crate::document::LayerInstance;
use crate::document::LevelInstance;
use crate::document::Project;
use crate::document::TilesetDef;
use crate::error::all_viewed;
use crate::error::gathered;
use crate::error::lemma_gathered_all;
use crate::error::lemma_gathered_fails_at;
use crate::error::lemma_gathered_next;
use crate::error::lemma_gathered_none;
use crate::error::lemma_views_none;
use crate::error::lemma_views_push;
use crate::error::viewed;
use crate::error::views;
use crate::error::LdtkError;
use crate::error::LdtkErrorView;
use crate::error::LdtkResult;
use crate::entities::DeserializeLdtkEntities;
use crate::entities::ProjectEntities;
use crate::fields::DeserializeLdtkFields;
use crate::fields::Fields;
use crate::fields::FieldsView;
use crate::fields::fields_of;
use crate::fields::OwnerKind;
use crate::layer::layer_of;
use crate::layer::Layer;
use crate::layer::LayerView;
use crate::lookup::find_keyed;
use crate::lookup::keys_of;
use crate::lookup::position_of;
use crate::lookup::Keyed;
use crate::schema::LayerSchemaView;
use crate::schema::Schema;
use crate::schema::SchemaView;
use crate::maps::get_layer_definition;
use crate::maps::get_tileset;
use crate::maps::insert_layer_definition;
use crate::maps::insert_tileset;
use crate::maps::layer_definition_entries;
use crate::maps::new_layer_definition_map;
use crate::maps::new_tileset_map;
use crate::maps::tileset_entries;
use bevy::platform::collections::HashMap;
use vstd::prelude::*;

verus! {

/// A layer of a level under the identifier and the member name of its definition.
#[derive(Debug, PartialEq, Eq)]
pub struct LayerEntry {
    /// The identifier as declared.
    pub identifier: String,
    /// The member name: the identifier in lower snake case.
    pub name: String,
    pub layer: Layer,
}

/// [`LayerEntry`] as a mathematical value: texts as sequences of characters,
/// vectors as sequences.
pub struct LayerEntryView {
    pub identifier: Seq<char>,
    pub name: Seq<char>,
    pub layer: LayerView,
}

impl View for LayerEntry {
    type V = LayerEntryView;

    open spec fn view(&self) -> LayerEntryView {
        LayerEntryView { identifier: self.identifier@, name: self.name@, layer: self.layer@ }
    }
}

impl Keyed for LayerEntry {
    open spec fn key(&self) -> Seq<char> {
        self.identifier@
    }

    fn key_text(&self) -> (text: &str) {
        self.identifier.as_str()
    }
}

impl Keyed for LayerInstance {
    open spec fn key(&self) -> Seq<char> {
        self.identifier@
    }

    fn key_text(&self) -> (text: &str) {
        self.identifier.as_str()
    }
}

/// The layer of shape `schema` among `instances`, decoded: the first instance
/// of the identifier of the shape, or `None` where there is no such instance.
pub open spec fn found_layer_of(
    schema: LayerSchemaView,
    instances: Seq<LayerInstance>,
    world: SchemaView,
) -> Result<Option<LayerView>, LdtkErrorView> {
    match position_of(keys_of(instances), schema.identifier) {
        Some(at) => match layer_of(instances[at], world.entities, world.enums) {
            Ok(layer) => Ok(Some(layer)),
            Err(error) => Err(error),
        },
        None => Ok(None),
    }
}

/// The entry of a layer that was found, or the error that names the layer
/// that was not.
pub open spec fn layer_entry_of(schema: LayerSchemaView, found: Option<LayerView>) -> Result<
    LayerEntryView,
    LdtkErrorView,
> {
    match found {
        Some(layer) => Ok(
            LayerEntryView { identifier: schema.identifier, name: schema.name, layer },
        ),
        None => Err(LdtkErrorView::MissingFieldsForLayers { layer: schema.identifier }),
    }
}

/// The entries of the first `count` layers that were found, or the error of
/// the first among them that was not.
pub open spec fn layer_entries_of(
    schemas: Seq<LayerSchemaView>,
    found: Seq<Option<LayerView>>,
    count: int,
) -> Result<Seq<LayerEntryView>, LdtkErrorView> {
    gathered(Seq::new(count as nat, |k: int| layer_entry_of(schemas[k], found[k])))
}

/// The layers of a level: one for each compiled layer, in the order of the
/// compiled layers. Every layer that has an instance is decoded first, and
/// the first that fails gives the error; else the first layer without an
/// instance gives the error.
pub open spec fn layers_of(instances: Seq<LayerInstance>, world: SchemaView) -> Result<
    Seq<LayerEntryView>,
    LdtkErrorView,
> {
    let schemas = world.level.layers;
    match gathered(Seq::new(schemas.len(), |k: int| found_layer_of(schemas[k], instances, world))) {
        Err(error) => Err(error),
        Ok(found) => layer_entries_of(schemas, found, schemas.len() as int),
    }
}

/// The record of the layers of a level: one member for each compiled layer,
/// in the order of the compiled layers.
#[derive(Debug, PartialEq, Eq)]
pub struct Layers {
    pub members: Vec<LayerEntry>,
}

/// [`Layers`] as a mathematical value: texts as sequences of characters,
/// vectors as sequences.
pub struct LayersView {
    pub members: Seq<LayerEntryView>,
}

impl View for Layers {
    type V = LayersView;

    open spec fn view(&self) -> LayersView {
        LayersView { members: views(self.members@) }
    }
}

/// A record of layers that can be decoded from layer instances.
pub trait DeserializeLDtkLayers: Sized + View {
    /// The kind of record that holds the entities of a layer.
    type Entities: DeserializeLdtkEntities;

    /// The record that the instances stand for under the compiled schema, or
    /// the error that decoding them gives.
    spec fn decoded(instances: Seq<LayerInstance>, schema: SchemaView) -> Result<
        Self::V,
        LdtkErrorView,
    >;

    /// Decodes the layers of a level.
    fn deserialize_ldtk(instances: &[LayerInstance], schema: &Schema) -> (layers: LdtkResult<Self>)
        ensures
            viewed(layers) == Self::decoded(instances@, schema@),
    ;
}

impl DeserializeLDtkLayers for Layers {
    type Entities = ProjectEntities;

    open spec fn decoded(instances: Seq<LayerInstance>, schema: SchemaView) -> Result<
        LayersView,
        LdtkErrorView,
    > {
        match layers_of(instances, schema) {
            Ok(members) => Ok(LayersView { members }),
            Err(error) => Err(error),
        }
    }

    fn deserialize_ldtk(instances: &[LayerInstance], schema: &Schema) -> (layers: LdtkResult<
        Layers,
    >) {
        let ghost schemas = schema@.level.layers;
        let ghost steps = Seq::new(
            schemas.len(),
            |k: int| found_layer_of(schemas[k], instances@, schema@),
        );
        let mut entries: Vec<LayerEntry> = Vec::new();
        let mut failure: Option<LdtkError> = None;
        let mut k: usize = 0;
        proof {
            lemma_gathered_none(steps);
            lemma_views_none::<LayerEntry>();
        }
        while k < schema.level.layers.len()
            invariant
                k <= schema.level.layers.len(),
                schemas == schema@.level.layers,
                schemas.len() == schema.level.layers.len(),
                steps == Seq::new(
                    schemas.len(),
                    |k: int| found_layer_of(schemas[k], instances@, schema@),
                ),
                gathered(steps.take(k as int)) is Ok,
                gathered(steps.take(k as int))->Ok_0.len() == k,
                match failure {
                    None => layer_entries_of(
                        schemas,
                        gathered(steps.take(k as int))->Ok_0,
                        k as int,
                    ) == Ok::<Seq<LayerEntryView>, LdtkErrorView>(views(entries@)),
                    Some(error) => layer_entries_of(
                        schemas,
                        gathered(steps.take(k as int))->Ok_0,
                        k as int,
                    ) == Err::<Seq<LayerEntryView>, LdtkErrorView>(error@),
                },
            decreases schema.level.layers.len() - k,
        {
            let ghost found = gathered(steps.take(k as int))->Ok_0;
            let declared = &schema.level.layers[k];
            assert(schemas[k as int] == declared@);
            match find_keyed(instances, declared.identifier.as_str()) {
                Some(at) => {
                    match Layer::load(
                        &instances[at],
                        schema.entities.as_slice(),
                        schema.enums.as_slice(),
                    ) {
                        Ok(layer) => {
                            proof {
                                lemma_gathered_next(steps, k as int, Some(layer@));
                                let grown = found.push(Some(layer@));
                                assert(Seq::new(
                                    (k + 1) as nat,
                                    |j: int| layer_entry_of(schemas[j], grown[j]),
                                ).drop_last() =~= Seq::new(
                                    k as nat,
                                    |j: int| layer_entry_of(schemas[j], found[j]),
                                ));
                            }
                            if failure.is_none() {
                                let entry = LayerEntry {
                                    identifier: declared.identifier.clone(),
                                    name: declared.name.clone(),
                                    layer,
                                };
                                proof {
                                    lemma_views_push(entries@, entry);
                                }
                                entries.push(entry);
                            }
                        },
                        Err(error) => {
                            proof {
                                lemma_gathered_fails_at(steps, k as int, error@);
                            }
                            return Err(error);
                        },
                    }
                },
                None => {
                    proof {
                        lemma_gathered_next(steps, k as int, None::<LayerView>);
                        let grown = found.push(None::<LayerView>);
                        assert(Seq::new(
                            (k + 1) as nat,
                            |j: int| layer_entry_of(schemas[j], grown[j]),
                        ).drop_last() =~= Seq::new(
                            k as nat,
                            |j: int| layer_entry_of(schemas[j], found[j]),
                        ));
                    }
                    if failure.is_none() {
                        failure = Some(
                            LdtkError::MissingFieldsForLayers {
                                layer: declared.identifier.clone(),
                            },
                        );
                    }
                },
            }
            k += 1;
        }
        proof {
            lemma_gathered_all(steps);
        }
        match failure {
            Some(error) => Err(error),
            None => Ok(Layers { members: entries }),
        }
    }
}

/// A level of a project. The world position is measured from the bottom
/// left, upward.
#[derive(Debug, PartialEq, Eq)]
pub struct Level {
    pub background_color: Rgb,
    /// The top left corner of the background image as the document holds it.
    pub background_position_px: Option<IVec2>,
    pub background_image_path: Option<String>,
    pub identifier: String,
    pub dimensions_px: IVec2,
    pub id: i64,
    pub world_position_px: IVec2,
    pub fields: Fields,
    pub layers: Layers,
}

/// [`Level`] as a mathematical value: texts as sequences of characters,
/// vectors as sequences.
pub struct LevelView {
    pub background_color: Rgb,
    pub background_position_px: Option<IVec2>,
    pub background_image_path: Option<Seq<char>>,
    pub identifier: Seq<char>,
    pub dimensions_px: IVec2,
    pub id: i64,
    pub world_position_px: IVec2,
    pub fields: FieldsView,
    pub layers: LayersView,
}

impl View for Level {
    type V = LevelView;

    open spec fn view(&self) -> LevelView {
        LevelView {
            background_color: self.background_color,
            background_position_px: self.background_position_px,
            background_image_path: text_of(self.background_image_path),
            identifier: self.identifier@,
            dimensions_px: self.dimensions_px,
            id: self.id,
            world_position_px: self.world_position_px,
            fields: self.fields@,
            layers: self.layers@,
        }
    }
}

/// The level that an instance stands for. The custom fields are decoded
/// first; a level without layers of its own is rejected; then the layers are
/// decoded, the background colour is read, and the world position is flipped
/// within the height of the level. The first step that fails gives the error.
pub open spec fn level_of(level: LevelInstance, schema: SchemaView) -> Result<
    LevelView,
    LdtkErrorView,
> {
    match fields_of(
        schema.level.fields,
        level.field_instances@,
        schema.enums,
        OwnerKind::Level,
        level.identifier@,
    ) {
        Err(error) => Err(error),
        Ok(fields) => match level.layer_instances {
            None => Err(LdtkErrorView::SplitProject { level: level.identifier@ }),
            Some(instances) => match layers_of(instances@, schema) {
                Err(error) => Err(error),
                Ok(layers) => match color_of_hex(level.bg_color@) {
                    None => Err(LdtkErrorView::MalformedColor { text: level.bg_color@ }),
                    Some(background_color) => match as_coordinate(
                        offset_flipped(level.world_y as int, level.px_hei as int),
                    ) {
                        None => Err(LdtkErrorView::CoordinateOutOfRange),
                        Some(world_y) => Ok(
                            LevelView {
                                background_color,
                                background_position_px: level.bg_pos,
                                background_image_path: text_of(level.bg_rel_path),
                                identifier: level.identifier@,
                                dimensions_px: IVec2 { x: level.px_wid, y: level.px_hei },
                                id: level.uid,
                                world_position_px: IVec2 { x: level.world_x, y: world_y },
                                fields: FieldsView { members: fields },
                                layers: LayersView { members: layers },
                            },
                        ),
                    },
                },
            },
        },
    }
}

impl Level {
    /// Decodes a level against the compiled schema.
    pub fn load(ldtk_level: &LevelInstance, schema: &Schema) -> (loaded: LdtkResult<Level>)
        ensures
            viewed(loaded) == level_of(*ldtk_level, schema@),
    {
        let fields = match Fields::deserialize_ldtk(
            ldtk_level.field_instances.as_slice(),
            schema.level.fields.as_slice(),
            schema.enums.as_slice(),
            OwnerKind::Level,
            ldtk_level.identifier.as_str(),
        ) {
            Ok(fields) => fields,
            Err(error) => {
                return Err(error);
            },
        };
        let layers = match &ldtk_level.layer_instances {
            None => {
                return Err(LdtkError::SplitProject { level: ldtk_level.identifier.clone() });
            },
            Some(instances) => match Layers::deserialize_ldtk(instances.as_slice(), schema) {
                Ok(layers) => layers,
                Err(error) => {
                    return Err(error);
                },
            },
        };
        let background_color = match Rgb::parse_hex(ldtk_level.bg_color.as_str()) {
            Some(color) => color,
            None => {
                return Err(LdtkError::MalformedColor { text: ldtk_level.bg_color.clone() });
            },
        };
        let world_y = match flip_offset(ldtk_level.world_y, ldtk_level.px_hei) {
            Some(y) => y,
            None => {
                return Err(LdtkError::CoordinateOutOfRange);
            },
        };
        Ok(
            Level {
                background_color,
                background_position_px: ldtk_level.bg_pos,
                background_image_path: copy_text(&ldtk_level.bg_rel_path),
                identifier: ldtk_level.identifier.clone(),
                dimensions_px: IVec2 { x: ldtk_level.px_wid, y: ldtk_level.px_hei },
                id: ldtk_level.uid,
                world_position_px: IVec2 { x: ldtk_level.world_x, y: world_y },
                fields,
                layers,
            },
        )
    }

    /// The layer that was declared under `identifier`, if there is one.
    pub fn layer(&self, identifier: &str) -> (found: Option<&Layer>)
        ensures
            (match found {
                Some(layer) => position_of(keys_of(self.layers.members@), identifier@) matches Some(
                    at,
                ) && *layer == self.layers.members@[at].layer,
                None => position_of(keys_of(self.layers.members@), identifier@) is None,
            }),
    {
        match find_keyed(self.layers.members.as_slice(), identifier) {
            Some(at) => Some(&self.layers.members[at].layer),
            None => None,
        }
    }
}

/// A project bound to its schema: the levels in order, and the tilesets and
/// the layer definitions by their numeric identifiers.
#[derive(Debug, PartialEq, Eq)]
pub struct World {
    pub levels: Vec<Level>,
    pub tilesets: HashMap<i64, Tileset>,
    pub layer_definitions: HashMap<i64, LayerDefinition>,
}

/// [`World`] as a mathematical value: texts as sequences of characters,
/// vectors as sequences.
pub struct WorldView {
    pub levels: Seq<LevelView>,
    pub tilesets: Map<i64, TilesetView>,
    pub layer_definitions: Map<i64, LayerDefinitionView>,
}

impl View for World {
    type V = WorldView;

    open spec fn view(&self) -> WorldView {
        WorldView {
            levels: views(self.levels@),
            tilesets: tileset_entries(self.tilesets).map_values(|tileset: Tileset| tileset@),
            layer_definitions: layer_definition_entries(self.layer_definitions).map_values(
                |definition: LayerDefinition| definition@,
            ),
        }
    }
}

/// The tilesets of a list of definitions by their identifiers. Of two
/// definitions with one identifier the later one stays.
pub open spec fn tilesets_of(defs: Seq<TilesetDef>) -> Map<i64, TilesetView>
    decreases defs.len(),
{
    if defs.len() == 0 {
        Map::empty()
    } else {
        tilesets_of(defs.drop_last()).insert(defs.last().uid, tileset_of(defs.last()))
    }
}

/// A list of layer definitions by their identifiers. Of two definitions with
/// one identifier the later one stays.
pub open spec fn layer_definitions_by_id(definitions: Seq<LayerDefinitionView>) -> Map<
    i64,
    LayerDefinitionView,
>
    decreases definitions.len(),
{
    if definitions.len() == 0 {
        Map::empty()
    } else {
        layer_definitions_by_id(definitions.drop_last()).insert(
            definitions.last().id,
            definitions.last(),
        )
    }
}

/// The layer definitions of a list of declarations by their identifiers, or
/// the error of the first declaration that stands for none.
pub open spec fn layer_definitions_of(defs: Seq<LayerDef>) -> Result<
    Map<i64, LayerDefinitionView>,
    LdtkErrorView,
> {
    match gathered(Seq::new(defs.len(), |i: int| layer_definition_of(defs[i]))) {
        Ok(definitions) => Ok(layer_definitions_by_id(definitions)),
        Err(error) => Err(error),
    }
}

/// The levels of a list of instances, or the error of the first that stands for none.
pub open spec fn levels_of(levels: Seq<LevelInstance>, schema: SchemaView) -> Result<
    Seq<LevelView>,
    LdtkErrorView,
> {
    gathered(Seq::new(levels.len(), |i: int| level_of(levels[i], schema)))
}

/// The world that a project stands for under a compiled schema: the error of
/// the first level that cannot be decoded, else that of the first layer
/// definition that cannot be read.
pub open spec fn world_of(project: Project, schema: SchemaView) -> Result<
    WorldView,
    LdtkErrorView,
> {
    match levels_of(project.levels@, schema) {
        Err(error) => Err(error),
        Ok(levels) => match layer_definitions_of(project.defs.layers@) {
            Err(error) => Err(error),
            Ok(layer_definitions) => Ok(
                WorldView {
                    levels,
                    tilesets: tilesets_of(project.defs.tilesets@),
                    layer_definitions,
                },
            ),
        },
    }
}

fn load_levels(levels: &Vec<LevelInstance>, schema: &Schema) -> (loaded: LdtkResult<Vec<Level>>)
    ensures
        all_viewed(loaded) == levels_of(levels@, schema@),
{
    let ghost steps = Seq::new(levels@.len(), |i: int| level_of(levels@[i], schema@));
    let mut loaded: Vec<Level> = Vec::new();
    let mut i: usize = 0;
    proof {
        lemma_gathered_none(steps);
        lemma_views_none::<Level>();
    }
    while i < levels.len()
        invariant
            i <= levels.len(),
            steps == Seq::new(levels@.len(), |i: int| level_of(levels@[i], schema@)),
            gathered(steps.take(i as int)) == Ok::<Seq<LevelView>, LdtkErrorView>(views(loaded@)),
        decreases levels.len() - i,
    {
        match Level::load(&levels[i], schema) {
            Ok(level) => {
                proof {
                    lemma_gathered_next(steps, i as int, level@);
                    lemma_views_push(loaded@, level);
                }
                loaded.push(level);
            },
            Err(error) => {
                proof {
                    lemma_gathered_fails_at(steps, i as int, error@);
                }
                return Err(error);
            },
        }
        i += 1;
    }
    proof {
        lemma_gathered_all(steps);
    }
    Ok(loaded)
}

fn load_tilesets(defs: &Vec<TilesetDef>) -> (loaded: HashMap<i64, Tileset>)
    ensures
        tileset_entries(loaded).map_values(|tileset: Tileset| tileset@) == tilesets_of(defs@),
{
    let mut loaded = new_tileset_map();
    let mut i: usize = 0;
    proof {
        assert(tileset_entries(loaded).map_values(|tileset: Tileset| tileset@) =~= tilesets_of(
            defs@.take(0),
        ));
    }
    while i < defs.len()
        invariant
            i <= defs.len(),
            tileset_entries(loaded).map_values(|tileset: Tileset| tileset@) == tilesets_of(
                defs@.take(i as int),
            ),
        decreases defs.len() - i,
    {
        let ghost before = tileset_entries(loaded);
        let tileset = Tileset::from_def(&defs[i]);
        let ghost added = tileset;
        insert_tileset(&mut loaded, defs[i].uid, tileset);
        proof {
            assert(defs@.take(i + 1).drop_last() =~= defs@.take(i as int));
            assert(tileset_entries(loaded).map_values(|tileset: Tileset| tileset@)
                =~= before.map_values(|tileset: Tileset| tileset@).insert(
                defs@[i as int].uid,
                added@,
            ));
        }
        i += 1;
    }
    proof {
        assert(defs@.take(i as int) =~= defs@);
    }
    loaded
}

fn load_layer_definitions(defs: &Vec<LayerDef>) -> (loaded: LdtkResult<
    HashMap<i64, LayerDefinition>,
>)
    ensures
        (match loaded {
            Ok(definitions) => layer_definitions_of(defs@) == Ok::<
                Map<i64, LayerDefinitionView>,
                LdtkErrorView,
            >(
                layer_definition_entries(definitions).map_values(
                    |definition: LayerDefinition| definition@,
                ),
            ),
            Err(error) => layer_definitions_of(defs@) == Err::<
                Map<i64, LayerDefinitionView>,
                LdtkErrorView,
            >(error@),
        }),
{
    let ghost steps = Seq::new(defs@.len(), |i: int| layer_definition_of(defs@[i]));
    let mut loaded = new_layer_definition_map();
    let mut i: usize = 0;
    proof {
        lemma_gathered_none(steps);
        assert(layer_definition_entries(loaded).map_values(
            |definition: LayerDefinition| definition@,
        ) =~= layer_definitions_by_id(Seq::empty()));
    }
    while i < defs.len()
        invariant
            i <= defs.len(),
            steps == Seq::new(defs@.len(), |i: int| layer_definition_of(defs@[i])),
            gathered(steps.take(i as int)) is Ok,
            layer_definition_entries(loaded).map_values(|definition: LayerDefinition| definition@)
                == layer_definitions_by_id(gathered(steps.take(i as int))->Ok_0),
        decreases defs.len() - i,
    {
        let ghost before = layer_definition_entries(loaded);
        let ghost read = gathered(steps.take(i as int))->Ok_0;
        match LayerDefinition::load(&defs[i]) {
            Ok(definition) => {
                let ghost added = definition;
                proof {
                    lemma_gathered_next(steps, i as int, definition@);
                    assert(read.push(definition@).drop_last() =~= read);
                }
                let id = definition.id;
                insert_layer_definition(&mut loaded, id, definition);
                proof {
                    assert(layer_definition_entries(loaded).map_values(
                        |definition: LayerDefinition| definition@,
                    ) =~= before.map_values(|definition: LayerDefinition| definition@).insert(
                        id,
                        added@,
                    ));
                }
            },
            Err(error) => {
                proof {
                    lemma_gathered_fails_at(steps, i as int, error@);
                }
                return Err(error);
            },
        }
        i += 1;
    }
    proof {
        lemma_gathered_all(steps);
    }
    Ok(loaded)
}

/// What can be decoded from a whole project.
pub trait DeserializeLdtk: Sized + View {
    /// What the project stands for under the compiled schema, or the error
    /// that decoding it gives.
    spec fn decoded(ldtk: Project, schema: SchemaView) -> Result<Self::V, LdtkErrorView>;

    /// Decodes a project against its compiled schema: all of it, or an error.
    fn deserialize_ldtk(ldtk: &Project, schema: &Schema) -> (loaded: LdtkResult<Self>)
        ensures
            viewed(loaded) == Self::decoded(*ldtk, schema@),
    ;
}

impl DeserializeLdtk for World {
    open spec fn decoded(ldtk: Project, schema: SchemaView) -> Result<WorldView, LdtkErrorView> {
        world_of(ldtk, schema)
    }

    fn deserialize_ldtk(ldtk: &Project, schema: &Schema) -> (world: LdtkResult<World>) {
        let levels = match load_levels(&ldtk.levels, schema) {
            Ok(levels) => levels,
            Err(error) => {
                return Err(error);
            },
        };
        let tilesets = load_tilesets(&ldtk.defs.tilesets);
        let layer_definitions = match load_layer_definitions(&ldtk.defs.layers) {
            Ok(definitions) => definitions,
            Err(error) => {
                return Err(error);
            },
        };
        Ok(World { levels, tilesets, layer_definitions })
    }
}

impl World {
    /// The tileset of the identifier `id`, if the project has one.
    pub fn tileset(&self, id: i64) -> (found: Option<&Tileset>)
        ensures
            (match found {
                Some(tileset) => tileset_entries(self.tilesets).contains_key(id) && *tileset
                    == tileset_entries(self.tilesets)[id],
                None => !tileset_entries(self.tilesets).contains_key(id),
            }),
    {
        get_tileset(&self.tilesets, id)
    }

    /// The layer definition of the identifier `id`, if the project has one.
    pub fn layer_definition(&self, id: i64) -> (found: Option<&LayerDefinition>)
        ensures
            (match found {
                Some(definition) => layer_definition_entries(self.layer_definitions).contains_key(
                    id,
                ) && *definition == layer_definition_entries(self.layer_definitions)[id],
                None => !layer_definition_entries(self.layer_definitions).contains_key(id),
            }),
    {
        get_layer_definition(&self.layer_definitions, id)
    }
}

} // verus!
