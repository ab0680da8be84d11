use bevy_spicy_ldtk::document::EntityDef;
use bevy_spicy_ldtk::document::EntityInstance;
use bevy_spicy_ldtk::document::FieldData;
use bevy_spicy_ldtk::document::FieldDef;
use bevy_spicy_ldtk::document::FieldInstance;
use bevy_spicy_ldtk::document::Float64;
use bevy_spicy_ldtk::document::LayerInstance;
use bevy_spicy_ldtk::document::Number;
use bevy_spicy_ldtk::document::TileInstance;
use bevy_spicy_ldtk::entities::Entity;
use bevy_spicy_ldtk::entities::ProjectEntities;
use bevy_spicy_ldtk::error::LdtkError;
use bevy_spicy_ldtk::fields::FieldValue;
use bevy_spicy_ldtk::fields::ScalarValue;
use bevy_spicy_ldtk::schema::define_entities;
use bevy_spicy_ldtk::schema::EntitySchema;
use bevy_spicy_ldtk::DeserializeLdtkEntities;
use bevy_spicy_ldtk::IVec2;
use bevy_spicy_ldtk::Layer;
use bevy_spicy_ldtk::SpecialValues;
use bevy_spicy_ldtk::Tile;

fn layers_tile(f: i64, x: i64, y: i64, t: i64) -> TileInstance {
    TileInstance { f, px: IVec2 { x, y }, src: IVec2 { x: t * 16, y: 0 }, t }
}

fn layers_layer(kind: &str, c_wid: i64, c_hei: i64) -> LayerInstance {
    LayerInstance {
        identifier: "Layer".to_string(),
        kind: kind.to_string(),
        c_wid,
        c_hei,
        grid_size: 16,
        opacity: Float64 { bits: 1.0f64.to_bits() },
        px_total_offset_x: 4,
        px_total_offset_y: 8,
        visible: true,
        tileset_def_uid: Some(12),
        layer_def_uid: 3,
        int_grid_csv: Vec::new(),
        auto_layer_tiles: Vec::new(),
        grid_tiles: Vec::new(),
        entity_instances: Vec::new(),
    }
}

fn layers_entity(identifier: &str, grid: (i64, i64), px: (i64, i64)) -> EntityInstance {
    EntityInstance {
        identifier: identifier.to_string(),
        width: 16,
        height: 24,
        grid: IVec2 { x: grid.0, y: grid.1 },
        px: IVec2 { x: px.0, y: px.1 },
        pivot_x: Float64 { bits: 0.0f64.to_bits() },
        pivot_y: Float64 { bits: 1.0f64.to_bits() },
        field_instances: Vec::new(),
    }
}

fn layers_kinds() -> Vec<EntitySchema> {
    define_entities(
        &[
            EntityDef { identifier: "Door".to_string(), field_defs: Vec::new() },
            EntityDef {
                identifier: "Chest".to_string(),
                field_defs: vec![FieldDef {
                    identifier: "Gold".to_string(),
                    kind: "Int".to_string(),
                    can_be_null: false,
                }],
            },
            EntityDef { identifier: "Door".to_string(), field_defs: Vec::new() },
        ],
        &[],
    )
    .unwrap()
}

fn layers_chest(gold: i64, grid: (i64, i64)) -> EntityInstance {
    let mut chest = layers_entity("Chest", grid, (grid.0 * 16, grid.1 * 16));
    chest.field_instances.push(FieldInstance {
        identifier: "Gold".to_string(),
        value: FieldData::Number(Number::Integer(gold)),
    });
    chest
}

#[test]
fn a_tile_is_flipped_within_its_layer() {
    let size = IVec2 { x: 64, y: 32 };
    assert_eq!(
        Tile::load(&layers_tile(0, 16, 0, 5), size),
        Ok(Tile {
            flip_x: false,
            flip_y: false,
            position_px: IVec2 { x: 16, y: -32 },
            src_px: IVec2 { x: 80, y: 0 },
            id: 5,
        })
    );
    assert_eq!(
        Tile::load(&layers_tile(0, 48, 16, 1), size).unwrap().position_px,
        IVec2 { x: 48, y: -48 }
    );
}

#[test]
fn the_flip_bits_are_read_one_by_one() {
    let size = IVec2 { x: 16, y: 16 };
    let flips = |f: i64| {
        let tile = Tile::load(&layers_tile(f, 0, 0, 0), size).unwrap();
        (tile.flip_x, tile.flip_y)
    };
    assert_eq!(flips(0), (false, false));
    assert_eq!(flips(1), (true, false));
    assert_eq!(flips(2), (false, true));
    assert_eq!(flips(3), (true, true));
    assert_eq!(flips(4), (false, false));
    assert_eq!(flips(7), (true, true));
}

#[test]
fn a_tile_out_of_range_is_rejected() {
    assert_eq!(
        Tile::load(&layers_tile(0, 0, i64::MAX, 0), IVec2 { x: 16, y: 16 }),
        Err(LdtkError::CoordinateOutOfRange)
    );
}

#[test]
fn an_int_grid_layer_swaps_its_rows() {
    let mut layer = layers_layer("IntGrid", 2, 2);
    layer.int_grid_csv = vec![1, 0, 0, 1];
    let loaded = Layer::load(&layer, &[], &[]).unwrap();
    assert_eq!(
        loaded.special,
        SpecialValues::IntGrid { values: vec![0, 1, 1, 0], auto_layer: Vec::new() }
    );
    assert_eq!(loaded.dimensions_cell, IVec2 { x: 2, y: 2 });
    assert_eq!(loaded.grid_size, 16);
    assert_eq!(loaded.opacity, Float64 { bits: 1.0f64.to_bits() });
    assert_eq!(loaded.total_offset_px, IVec2 { x: 4, y: -40 });
    assert!(loaded.visible);
    assert_eq!(loaded.tileset_uid, Some(12));
    assert_eq!(loaded.layer_definition, 3);
}

#[test]
fn an_int_grid_layer_keeps_its_rows_inside() {
    let mut layer = layers_layer("IntGrid", 3, 2);
    layer.int_grid_csv = vec![1, 2, 3, 4, 5, 6];
    layer.auto_layer_tiles = vec![
        layers_tile(0, 0, 0, 1),
        layers_tile(0, 16, 0, 2),
        layers_tile(0, 32, 0, 3),
        layers_tile(1, 0, 16, 4),
    ];
    match Layer::load(&layer, &[], &[]).unwrap().special {
        SpecialValues::IntGrid { values, auto_layer } => {
            assert_eq!(values, vec![4, 5, 6, 1, 2, 3]);
            let ids: Vec<i64> = auto_layer.iter().map(|tile| tile.id).collect();
            assert_eq!(ids, vec![4, 1, 2, 3]);
            assert_eq!(auto_layer[0].position_px, IVec2 { x: 0, y: -48 });
            assert!(auto_layer[0].flip_x);
            assert_eq!(auto_layer[1].position_px, IVec2 { x: 0, y: -32 });
        }
        other => panic!("unexpected contents: {:?}", other),
    }
}

#[test]
fn a_tiles_layer_holds_its_tileset_and_tiles() {
    let mut layer = layers_layer("Tiles", 2, 2);
    layer.grid_tiles = vec![
        layers_tile(0, 0, 0, 1),
        layers_tile(0, 16, 0, 2),
        layers_tile(0, 0, 16, 3),
        layers_tile(0, 16, 16, 4),
    ];
    layer.auto_layer_tiles = vec![layers_tile(0, 0, 0, 9)];
    match Layer::load(&layer, &[], &[]).unwrap().special {
        SpecialValues::Tiles { tileset, tiles } => {
            assert_eq!(tileset, Some(12));
            let ids: Vec<i64> = tiles.iter().map(|tile| tile.id).collect();
            assert_eq!(ids, vec![3, 4, 1, 2]);
        }
        other => panic!("unexpected contents: {:?}", other),
    }
}

#[test]
fn an_auto_layer_holds_its_placed_tiles() {
    let mut layer = layers_layer("AutoLayer", 1, 3);
    layer.auto_layer_tiles = vec![
        layers_tile(0, 0, 0, 1),
        layers_tile(0, 0, 16, 2),
        layers_tile(0, 0, 32, 3),
    ];
    layer.grid_tiles = vec![layers_tile(0, 0, 0, 9)];
    match Layer::load(&layer, &[], &[]).unwrap().special {
        SpecialValues::AutoLayer { auto_layer } => {
            let ids: Vec<i64> = auto_layer.iter().map(|tile| tile.id).collect();
            assert_eq!(ids, vec![3, 2, 1]);
            assert_eq!(auto_layer[0].position_px, IVec2 { x: 0, y: -80 });
        }
        other => panic!("unexpected contents: {:?}", other),
    }
}

#[test]
fn a_layer_without_columns_keeps_its_lists() {
    let mut layer = layers_layer("IntGrid", 0, 2);
    layer.int_grid_csv = vec![1, 2, 3];
    match Layer::load(&layer, &[], &[]).unwrap().special {
        SpecialValues::IntGrid { values, .. } => assert_eq!(values, vec![1, 2, 3]),
        other => panic!("unexpected contents: {:?}", other),
    }
    let mut layer = layers_layer("IntGrid", -2, 2);
    layer.int_grid_csv = vec![1, 2, 3];
    match Layer::load(&layer, &[], &[]).unwrap().special {
        SpecialValues::IntGrid { values, .. } => assert_eq!(values, vec![1, 2, 3]),
        other => panic!("unexpected contents: {:?}", other),
    }
}

#[test]
fn an_unknown_layer_kind_is_rejected_by_name() {
    for kind in ["Voxels", "", "intgrid", "IntGrid ", "Tile"] {
        assert_eq!(
            Layer::load(&layers_layer(kind, 2, 2), &[], &[]),
            Err(LdtkError::UnknownLayerType(kind.to_string()))
        );
    }
    assert_eq!(
        Layer::load(&layers_layer("Voxels", i64::MAX, i64::MAX), &[], &[]),
        Err(LdtkError::UnknownLayerType("Voxels".to_string()))
    );
}

#[test]
fn a_layer_out_of_range_is_rejected() {
    assert_eq!(
        Layer::load(&layers_layer("Tiles", i64::MAX, 2), &[], &[]),
        Err(LdtkError::CoordinateOutOfRange)
    );
    assert_eq!(
        Layer::load(&layers_layer("Tiles", 2, i64::MAX), &[], &[]),
        Err(LdtkError::CoordinateOutOfRange)
    );
    let mut layer = layers_layer("Tiles", 2, 2);
    layer.px_total_offset_y = i64::MAX;
    assert_eq!(Layer::load(&layer, &[], &[]), Err(LdtkError::CoordinateOutOfRange));
    let mut layer = layers_layer("Tiles", 2, 2);
    layer.grid_tiles = vec![layers_tile(0, 0, 0, 1), layers_tile(0, 0, i64::MAX, 2)];
    assert_eq!(Layer::load(&layer, &[], &[]), Err(LdtkError::CoordinateOutOfRange));
}

#[test]
fn an_entity_is_counted_from_the_bottom() {
    let kinds = layers_kinds();
    let entity = Entity::load(
        &layers_entity("Door", (1, 0), (16, 0)),
        &kinds[0],
        &[],
        IVec2 { x: 4, y: 3 },
        IVec2 { x: 64, y: 48 },
    )
    .unwrap();
    assert_eq!(entity.identifier, "Door");
    assert_eq!(entity.dimensions_px, IVec2 { x: 16, y: 24 });
    assert_eq!(entity.position_cell, IVec2 { x: 1, y: 2 });
    assert_eq!(entity.position_px, IVec2 { x: 16, y: 47 });
    assert_eq!(entity.pivot_x, Float64 { bits: 0.0f64.to_bits() });
    assert_eq!(entity.pivot_y, Float64 { bits: 1.0f64.to_bits() });
    assert!(entity.fields.members.is_empty());
}

#[test]
fn an_entity_out_of_range_is_rejected() {
    let kinds = layers_kinds();
    assert_eq!(
        Entity::load(
            &layers_entity("Door", (0, i64::MIN), (0, 0)),
            &kinds[0],
            &[],
            IVec2 { x: 4, y: 3 },
            IVec2 { x: 64, y: 48 },
        ),
        Err(LdtkError::CoordinateOutOfRange)
    );
    assert_eq!(
        Entity::load(
            &layers_entity("Door", (0, 0), (0, i64::MIN)),
            &kinds[0],
            &[],
            IVec2 { x: 4, y: 3 },
            IVec2 { x: 64, y: 48 },
        ),
        Err(LdtkError::CoordinateOutOfRange)
    );
}

#[test]
fn an_entity_decodes_its_fields() {
    let kinds = layers_kinds();
    let size = IVec2 { x: 4, y: 3 };
    let size_px = IVec2 { x: 64, y: 48 };
    let chest = Entity::load(&layers_chest(30, (2, 2)), &kinds[1], &[], size, size_px).unwrap();
    assert_eq!(chest.fields.members.len(), 1);
    assert_eq!(chest.fields.members[0].name, "gold");
    assert_eq!(chest.fields.members[0].value, FieldValue::Single(ScalarValue::Int(30)));
    assert_eq!(
        Entity::load(&layers_entity("Chest", (0, 0), (0, 0)), &kinds[1], &[], size, size_px),
        Err(LdtkError::MissingFieldsForEntities {
            entity: "Chest".to_string(),
            field: "Gold".to_string(),
        })
    );
}

#[test]
fn entities_are_sorted_by_kind() {
    let kinds = layers_kinds();
    let instances = [
        layers_chest(1, (0, 0)),
        layers_entity("Door", (1, 1), (16, 16)),
        layers_chest(2, (2, 2)),
        layers_entity("Door", (3, 0), (48, 0)),
    ];
    let entities = ProjectEntities::deserialize_ldtk(
        &instances,
        &kinds,
        &[],
        IVec2 { x: 4, y: 3 },
        IVec2 { x: 64, y: 48 },
    )
    .unwrap();
    assert_eq!(entities.groups.len(), 3);
    assert_eq!(entities.groups[0].name, "all_door");
    assert_eq!(entities.groups[1].name, "all_chest");
    assert_eq!(entities.groups[2].name, "all_door");
    let doors: Vec<IVec2> =
        entities.groups[0].entities.iter().map(|door| door.position_cell).collect();
    assert_eq!(doors, vec![IVec2 { x: 1, y: 1 }, IVec2 { x: 3, y: 2 }]);
    let gold: Vec<&FieldValue> = entities.groups[1]
        .entities
        .iter()
        .map(|chest| &chest.fields.members[0].value)
        .collect();
    assert_eq!(
        gold,
        vec![
            &FieldValue::Single(ScalarValue::Int(1)),
            &FieldValue::Single(ScalarValue::Int(2))
        ]
    );
    assert!(entities.groups[2].entities.is_empty());
}

#[test]
fn an_entity_of_no_declared_kind_is_rejected() {
    let kinds = layers_kinds();
    let instances = [
        layers_entity("Door", (0, 0), (0, 0)),
        layers_entity("Ghost", (0, 0), (0, 0)),
        layers_entity("Chest", (0, 0), (0, 0)),
    ];
    assert_eq!(
        ProjectEntities::deserialize_ldtk(
            &instances,
            &kinds,
            &[],
            IVec2 { x: 4, y: 3 },
            IVec2 { x: 64, y: 48 },
        ),
        Err(LdtkError::UnknownEntityType("Ghost".to_string()))
    );
    assert_eq!(
        ProjectEntities::deserialize_ldtk(
            &instances[..1],
            &[],
            &[],
            IVec2 { x: 4, y: 3 },
            IVec2 { x: 64, y: 48 },
        ),
        Err(LdtkError::UnknownEntityType("Door".to_string()))
    );
}

#[test]
fn no_entities_give_empty_groups() {
    let kinds = layers_kinds();
    let entities = ProjectEntities::deserialize_ldtk(
        &[],
        &kinds,
        &[],
        IVec2 { x: 0, y: 0 },
        IVec2 { x: 0, y: 0 },
    )
    .unwrap();
    assert_eq!(entities.groups.len(), 3);
    assert!(entities.groups.iter().all(|group| group.entities.is_empty()));
}

#[test]
fn an_entities_layer_decodes_within_its_own_size() {
    let kinds = layers_kinds();
    let mut layer = layers_layer("Entities", 4, 3);
    layer.entity_instances = vec![layers_entity("Door", (1, 0), (16, 0))];
    layer.int_grid_csv = vec![1, 2, 3, 4];
    match Layer::load(&layer, &kinds, &[]).unwrap().special {
        SpecialValues::Entities(entities) => {
            assert_eq!(entities.groups[0].entities.len(), 1);
            assert_eq!(entities.groups[0].entities[0].position_cell, IVec2 { x: 1, y: 2 });
            assert_eq!(entities.groups[0].entities[0].position_px, IVec2 { x: 16, y: 47 });
        }
        other => panic!("unexpected contents: {:?}", other),
    }
}

#[test]
fn an_entities_layer_passes_errors_on() {
    let mut layer = layers_layer("Entities", 4, 3);
    layer.entity_instances = vec![layers_entity("Ghost", (1, 0), (16, 0))];
    assert_eq!(
        Layer::load(&layer, &layers_kinds(), &[]),
        Err(LdtkError::UnknownEntityType("Ghost".to_string()))
    );
}
