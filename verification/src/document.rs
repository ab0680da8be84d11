use crate::coords::IVec2;
use vstd::prelude::*;

verus! {

/// A 64-bit floating-point number as its IEEE 754 bit pattern. The library
/// carries such a number through and never computes with it.
#[derive(Clone, Copy, Debug, PartialEq, Eq, Structural)]
pub struct Float64 {
    pub bits: u64,
}

/// A number of a document: written as an integer, or as a floating-point number.
#[derive(Clone, Copy, Debug, PartialEq, Eq, Structural)]
pub enum Number {
    Integer(i64),
    Real(Float64),
}

/// A member of an object of a document.
#[derive(Debug, PartialEq, Eq)]
pub struct Member {
    pub key: String,
    pub value: FieldData,
}

/// The value of a field instance, as the project document holds it.
#[derive(Debug, PartialEq, Eq)]
pub enum FieldData {
    Null,
    Bool(bool),
    Number(Number),
    Text(String),
    List(Vec<FieldData>),
    Object(Vec<Member>),
}

/// The declaration of a custom field of a level or of an entity.
#[derive(Debug, PartialEq, Eq)]
pub struct FieldDef {
    pub identifier: String,
    /// The declared type, such as `Int`, `Array<Point>` or `LocalEnum.Kind`.
    pub kind: String,
    pub can_be_null: bool,
}

/// The declaration of an enumeration.
#[derive(Debug, PartialEq, Eq)]
pub struct EnumDef {
    pub identifier: String,
    /// The identifiers of the values, in the order of their declaration.
    pub values: Vec<String>,
}

/// The declaration of an entity kind.
#[derive(Debug, PartialEq, Eq)]
pub struct EntityDef {
    pub identifier: String,
    pub field_defs: Vec<FieldDef>,
}

/// The declaration of a value of an `IntGrid` layer.
#[derive(Debug, PartialEq, Eq)]
pub struct IntGridValueDef {
    /// A colour literal of the form `#rrggbb`.
    pub color: String,
    pub identifier: Option<String>,
    pub value: i64,
}

/// The declaration of a layer.
#[derive(Debug, PartialEq, Eq)]
pub struct LayerDef {
    pub identifier: String,
    pub uid: i64,
    /// `IntGrid`, `Entities`, `Tiles` or `AutoLayer`.
    pub kind: String,
    pub int_grid_values: Vec<IntGridValueDef>,
}

/// The declaration of a tileset.
#[derive(Debug, PartialEq, Eq)]
pub struct TilesetDef {
    pub identifier: String,
    pub uid: i64,
    pub tile_grid_size: i64,
    pub padding: i64,
    pub c_wid: i64,
    pub c_hei: i64,
    pub rel_path: Option<String>,
}

/// The definitions of a project.
#[derive(Debug, PartialEq, Eq)]
pub struct Definitions {
    pub enums: Vec<EnumDef>,
    pub entities: Vec<EntityDef>,
    pub level_fields: Vec<FieldDef>,
    pub layers: Vec<LayerDef>,
    pub tilesets: Vec<TilesetDef>,
}

/// The value that a level or an entity gives to one of its fields.
#[derive(Debug, PartialEq, Eq)]
pub struct FieldInstance {
    pub identifier: String,
    pub value: FieldData,
}

/// An entity as placed in a layer. Positions are measured from the top left,
/// downward.
#[derive(Debug, PartialEq, Eq)]
pub struct EntityInstance {
    pub identifier: String,
    pub width: i64,
    pub height: i64,
    pub grid: IVec2,
    pub px: IVec2,
    pub pivot_x: Float64,
    pub pivot_y: Float64,
    pub field_instances: Vec<FieldInstance>,
}

/// A tile as placed in a layer. The position is measured from the top left,
/// downward.
#[derive(Clone, Copy, Debug, PartialEq, Eq)]
pub struct TileInstance {
    /// The flip bits: bit 0 flips along x, bit 1 along y.
    pub f: i64,
    pub px: IVec2,
    pub src: IVec2,
    pub t: i64,
}

/// A layer of a level.
#[derive(Debug, PartialEq, Eq)]
pub struct LayerInstance {
    pub identifier: String,
    /// `IntGrid`, `Entities`, `Tiles` or `AutoLayer`.
    pub kind: String,
    pub c_wid: i64,
    pub c_hei: i64,
    pub grid_size: i64,
    pub opacity: Float64,
    pub px_total_offset_x: i64,
    pub px_total_offset_y: i64,
    pub visible: bool,
    pub tileset_def_uid: Option<i64>,
    pub layer_def_uid: i64,
    pub int_grid_csv: Vec<i64>,
    pub auto_layer_tiles: Vec<TileInstance>,
    pub grid_tiles: Vec<TileInstance>,
    pub entity_instances: Vec<EntityInstance>,
}

/// A level of a project.
#[derive(Debug, PartialEq, Eq)]
pub struct LevelInstance {
    pub identifier: String,
    pub uid: i64,
    pub px_wid: i64,
    pub px_hei: i64,
    pub world_x: i64,
    pub world_y: i64,
    /// A colour literal of the form `#rrggbb`.
    pub bg_color: String,
    /// The top left corner of the background image, in pixels.
    pub bg_pos: Option<IVec2>,
    pub bg_rel_path: Option<String>,
    pub field_instances: Vec<FieldInstance>,
    /// `None` where the level is stored in a file of its own.
    pub layer_instances: Option<Vec<LayerInstance>>,
}

/// A project document: definitions and levels.
#[derive(Debug, PartialEq, Eq)]
pub struct Project {
    pub defs: Definitions,
    pub levels: Vec<LevelInstance>,
}

} // verus!
