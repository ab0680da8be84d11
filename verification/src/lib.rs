pub mod color;
pub mod coords;
pub mod definitions;
pub mod document;
pub mod entities;
pub mod error;
pub mod fields;
pub mod grid;
pub mod layer;
pub mod lookup;
pub mod maps;
pub mod naming;
pub mod schema;
pub mod text;
pub mod world;

pub use color::Rgb;
pub use coords::IVec2;
pub use entities::DeserializeLdtkEntities;
pub use fields::parse_field;
pub use fields::DeserializeLdtkFields;
pub use grid::reverse_row_wise;
pub use layer::Layer;
pub use layer::SpecialValues;
pub use layer::Tile;
pub use schema::ldtk;
pub use world::DeserializeLDtkLayers;
pub use world::DeserializeLdtk;
pub use definitions::IntGridValueDefinition;
pub use definitions::LayerDefinition;
pub use world::Level;
pub use definitions::SpecialLayerDefinitions;
pub use definitions::Tileset;
pub use world::World;
