use crate::coords::as_coordinate;
use crate::coords::flip_offset;
use crate::coords::offset_flipped;
use crate::coords::scaled;
use crate::coords::IVec2;
use crate::document::Float64;
use crate::document::LayerInstance;
use crate::document::TileInstance;
use crate::entities::DeserializeLdtkEntities;
use crate::entities::project_entities_of;
use crate::entities::ProjectEntities;
use crate::entities::ProjectEntitiesView;
use crate::error::failure_viewed;
use crate::error::gathered;
use crate::error::lemma_gathered_all;
use crate::error::lemma_gathered_fails_at;
use crate::error::lemma_gathered_next;
use crate::error::lemma_gathered_none;
use crate::error::viewed;
use crate::error::LdtkError;
use crate::error::LdtkErrorView;
use crate::error::LdtkResult;
use crate::grid::lemma_rows_reversed_len;
use crate::grid::reverse_row_wise;
use crate::grid::rows_reversed;
use crate::definitions::layer_kind_named;
use crate::schema::EntitySchema;
use crate::schema::EntitySchemaView;
use crate::schema::EnumSchema;
use crate::schema::EnumSchemaView;
use crate::definitions::LayerKind;
use crate::error::views;
use vstd::prelude::*;

verus! {

/// A tile of a layer. The position is measured from the bottom left, upward.
#[derive(Clone, Copy, Debug, PartialEq, Eq, Structural)]
pub struct Tile {
    pub flip_x: bool,
    pub flip_y: bool,
    pub position_px: IVec2,
    pub src_px: IVec2,
    pub id: i64,
}

/// The tile that an instance stands for in a layer of the pixel dimensions
/// `layer_dimensions_px`: bit 0 of the flip bits flips along x, bit 1 along
/// y, and the vertical position is flipped within the height of the layer.
pub open spec fn tile_of(tile: TileInstance, layer_dimensions_px: IVec2) -> Result<
    Tile,
    LdtkErrorView,
> {
    match as_coordinate(offset_flipped(tile.px.y as int, layer_dimensions_px.y as int)) {
        Some(y) => Ok(
            Tile {
                flip_x: tile.f & 1 == 1,
                flip_y: tile.f & 2 == 2,
                position_px: IVec2 { x: tile.px.x, y },
                src_px: tile.src,
                id: tile.t,
            },
        ),
        None => Err(LdtkErrorView::CoordinateOutOfRange),
    }
}

/// The tiles that a list of instances stands for, or the error of the first
/// that stands for none.
pub open spec fn tiles_of(tiles: Seq<TileInstance>, layer_dimensions_px: IVec2) -> Result<
    Seq<Tile>,
    LdtkErrorView,
> {
    gathered(Seq::new(tiles.len(), |i: int| tile_of(tiles[i], layer_dimensions_px)))
}

impl Tile {
    /// Decodes a tile instance of a layer of the pixel dimensions `layer_dimensions_px`.
    pub fn load(tile: &TileInstance, layer_dimensions_px: IVec2) -> (loaded: LdtkResult<Tile>)
        ensures
            failure_viewed(loaded) == tile_of(*tile, layer_dimensions_px),
    {
        match flip_offset(tile.px.y, layer_dimensions_px.y) {
            Some(y) => Ok(
                Tile {
                    flip_x: tile.f & 1 == 1,
                    flip_y: tile.f & 2 == 2,
                    position_px: IVec2 { x: tile.px.x, y },
                    src_px: tile.src,
                    id: tile.t,
                },
            ),
            None => Err(LdtkError::CoordinateOutOfRange),
        }
    }
}

fn load_tiles(tiles: &Vec<TileInstance>, layer_dimensions_px: IVec2) -> (loaded: LdtkResult<
    Vec<Tile>,
>)
    ensures
        (match loaded {
            Ok(list) => tiles_of(tiles@, layer_dimensions_px) == Ok::<Seq<Tile>, LdtkErrorView>(
                list@,
            ),
            Err(error) => tiles_of(tiles@, layer_dimensions_px) == Err::<Seq<Tile>, LdtkErrorView>(
                error@,
            ),
        }),
{
    let ghost steps = Seq::new(tiles@.len(), |i: int| tile_of(tiles@[i], layer_dimensions_px));
    let mut loaded: Vec<Tile> = Vec::new();
    let mut i: usize = 0;
    proof {
        lemma_gathered_none(steps);
    }
    while i < tiles.len()
        invariant
            i <= tiles.len(),
            steps == Seq::new(tiles@.len(), |i: int| tile_of(tiles@[i], layer_dimensions_px)),
            gathered(steps.take(i as int)) == Ok::<Seq<Tile>, LdtkErrorView>(loaded@),
        decreases tiles.len() - i,
    {
        match Tile::load(&tiles[i], layer_dimensions_px) {
            Ok(tile) => {
                proof {
                    lemma_gathered_next(steps, i as int, tile);
                }
                loaded.push(tile);
            },
            Err(error) => {
                proof {
                    lemma_gathered_fails_at(steps, i as int, error@);
                }
                return Err(error);
            },
        }
        i += 1;
    }
    proof {
        lemma_gathered_all(steps);
    }
    Ok(loaded)
}

/// Puts the rows of a layer of `c_wid` columns in the opposite vertical
/// order. A layer without columns has no rows to reorder.
fn reverse_rows<T>(list: Vec<T>, c_wid: i64) -> (reversed: Vec<T>)
    ensures
        reversed@ == rows_reversed(list@, c_wid as int),
{
    if c_wid <= 0 || c_wid as u64 >= list.len() as u64 {
        list
    } else {
        reverse_row_wise(list, c_wid as usize)
    }
}

fn copy_values(values: &Vec<i64>) -> (copy: Vec<i64>)
    ensures
        copy@ == values@,
{
    let mut copy: Vec<i64> = Vec::new();
    let mut i: usize = 0;
    while i < values.len()
        invariant
            i <= values.len(),
            copy@ == values@.take(i as int),
        decreases values.len() - i,
    {
        copy.push(values[i]);
        proof {
            assert(values@.take(i + 1) =~= values@.take(i as int).push(values@[i as int]));
        }
        i += 1;
    }
    proof {
        assert(values@.take(i as int) =~= values@);
    }
    copy
}

/// What a layer holds, by its kind. Grids are stored bottom row first.
#[derive(Debug, PartialEq, Eq)]
pub enum SpecialValues {
    IntGrid { values: Vec<i64>, auto_layer: Vec<Tile> },
    Entities(ProjectEntities),
    Tiles { tileset: Option<i64>, tiles: Vec<Tile> },
    AutoLayer { auto_layer: Vec<Tile> },
}

/// [`SpecialValues`] as a mathematical value: texts as sequences of characters,
/// vectors as sequences.
pub enum SpecialValuesView {
    IntGrid { values: Seq<i64>, auto_layer: Seq<Tile> },
    Entities(ProjectEntitiesView),
    Tiles { tileset: Option<i64>, tiles: Seq<Tile> },
    AutoLayer { auto_layer: Seq<Tile> },
}

impl View for SpecialValues {
    type V = SpecialValuesView;

    open spec fn view(&self) -> SpecialValuesView {
        match self {
            SpecialValues::IntGrid { values, auto_layer } => SpecialValuesView::IntGrid {
                values: values@,
                auto_layer: auto_layer@,
            },
            SpecialValues::Entities(entities) => SpecialValuesView::Entities(entities@),
            SpecialValues::Tiles { tileset, tiles } => SpecialValuesView::Tiles {
                tileset: *tileset,
                tiles: tiles@,
            },
            SpecialValues::AutoLayer { auto_layer } => SpecialValuesView::AutoLayer {
                auto_layer: auto_layer@,
            },
        }
    }
}

/// A layer of a level. The offset is measured from the bottom left, upward.
#[derive(Debug, PartialEq, Eq)]
pub struct Layer {
    pub dimensions_cell: IVec2,
    pub grid_size: i64,
    pub opacity: Float64,
    pub total_offset_px: IVec2,
    pub visible: bool,
    pub tileset_uid: Option<i64>,
    pub layer_definition: i64,
    pub special: SpecialValues,
}

/// [`Layer`] as a mathematical value: texts as sequences of characters,
/// vectors as sequences.
pub struct LayerView {
    pub dimensions_cell: IVec2,
    pub grid_size: i64,
    pub opacity: Float64,
    pub total_offset_px: IVec2,
    pub visible: bool,
    pub tileset_uid: Option<i64>,
    pub layer_definition: i64,
    pub special: SpecialValuesView,
}

impl View for Layer {
    type V = LayerView;

    open spec fn view(&self) -> LayerView {
        LayerView {
            dimensions_cell: self.dimensions_cell,
            grid_size: self.grid_size,
            opacity: self.opacity,
            total_offset_px: self.total_offset_px,
            visible: self.visible,
            tileset_uid: self.tileset_uid,
            layer_definition: self.layer_definition,
            special: self.special@,
        }
    }
}

/// The tiles of a list of instances with their rows in the opposite vertical order.
pub open spec fn tile_rows_of(
    tiles: Seq<TileInstance>,
    layer_dimensions_px: IVec2,
    c_wid: int,
) -> Result<Seq<Tile>, LdtkErrorView> {
    match tiles_of(tiles, layer_dimensions_px) {
        Ok(list) => Ok(rows_reversed(list, c_wid)),
        Err(error) => Err(error),
    }
}

/// What a layer instance of the kind `kind` holds.
pub open spec fn special_values_of(
    layer: LayerInstance,
    kind: LayerKind,
    layer_dimensions_px: IVec2,
    kinds: Seq<EntitySchemaView>,
    enums: Seq<EnumSchemaView>,
) -> Result<SpecialValuesView, LdtkErrorView> {
    match kind {
        LayerKind::IntGrid => match tile_rows_of(
            layer.auto_layer_tiles@,
            layer_dimensions_px,
            layer.c_wid as int,
        ) {
            Ok(auto_layer) => Ok(
                SpecialValuesView::IntGrid {
                    values: rows_reversed(layer.int_grid_csv@, layer.c_wid as int),
                    auto_layer,
                },
            ),
            Err(error) => Err(error),
        },
        LayerKind::Entities => match project_entities_of(
            layer.entity_instances@,
            kinds,
            enums,
            IVec2 { x: layer.c_wid, y: layer.c_hei },
            layer_dimensions_px,
        ) {
            Ok(entities) => Ok(SpecialValuesView::Entities(entities)),
            Err(error) => Err(error),
        },
        LayerKind::Tiles => match tile_rows_of(
            layer.grid_tiles@,
            layer_dimensions_px,
            layer.c_wid as int,
        ) {
            Ok(tiles) => Ok(SpecialValuesView::Tiles { tileset: layer.tileset_def_uid, tiles }),
            Err(error) => Err(error),
        },
        LayerKind::AutoLayer => match tile_rows_of(
            layer.auto_layer_tiles@,
            layer_dimensions_px,
            layer.c_wid as int,
        ) {
            Ok(auto_layer) => Ok(SpecialValuesView::AutoLayer { auto_layer }),
            Err(error) => Err(error),
        },
    }
}

/// The layer that an instance stands for. The kind must be one of the four
/// that are known, else the error names it; then the pixel dimensions of the
/// layer and its flipped offset must be coordinates; then the contents are
/// decoded by kind.
pub open spec fn layer_of(
    layer: LayerInstance,
    kinds: Seq<EntitySchemaView>,
    enums: Seq<EnumSchemaView>,
) -> Result<LayerView, LdtkErrorView> {
    match layer_kind_named(layer.kind@) {
        None => Err(LdtkErrorView::UnknownLayerType(layer.kind@)),
        Some(kind) => match (
            as_coordinate(layer.c_wid as int * layer.grid_size as int),
            as_coordinate(layer.c_hei as int * layer.grid_size as int),
        ) {
            (Some(width_px), Some(height_px)) => match as_coordinate(
                offset_flipped(layer.px_total_offset_y as int, height_px as int),
            ) {
                Some(offset_y) => match special_values_of(
                    layer,
                    kind,
                    IVec2 { x: width_px, y: height_px },
                    kinds,
                    enums,
                ) {
                    Ok(special) => Ok(
                        LayerView {
                            dimensions_cell: IVec2 { x: layer.c_wid, y: layer.c_hei },
                            grid_size: layer.grid_size,
                            opacity: layer.opacity,
                            total_offset_px: IVec2 { x: layer.px_total_offset_x, y: offset_y },
                            visible: layer.visible,
                            tileset_uid: layer.tileset_def_uid,
                            layer_definition: layer.layer_def_uid,
                            special,
                        },
                    ),
                    Err(error) => Err(error),
                },
                None => Err(LdtkErrorView::CoordinateOutOfRange),
            },
            _ => Err(LdtkErrorView::CoordinateOutOfRange),
        },
    }
}

fn load_tile_rows(tiles: &Vec<TileInstance>, layer_dimensions_px: IVec2, c_wid: i64) -> (loaded:
    LdtkResult<Vec<Tile>>)
    ensures
        (match loaded {
            Ok(list) => tile_rows_of(tiles@, layer_dimensions_px, c_wid as int) == Ok::<
                Seq<Tile>,
                LdtkErrorView,
            >(list@),
            Err(error) => tile_rows_of(tiles@, layer_dimensions_px, c_wid as int) == Err::<
                Seq<Tile>,
                LdtkErrorView,
            >(error@),
        }),
{
    match load_tiles(tiles, layer_dimensions_px) {
        Ok(list) => Ok(reverse_rows(list, c_wid)),
        Err(error) => Err(error),
    }
}

fn load_special_values(
    layer: &LayerInstance,
    kind: LayerKind,
    layer_dimensions_px: IVec2,
    kinds: &[EntitySchema],
    enums: &[EnumSchema],
) -> (special: LdtkResult<SpecialValues>)
    ensures
        viewed(special) == special_values_of(
            *layer,
            kind,
            layer_dimensions_px,
            views(kinds@),
            views(enums@),
        ),
{
    match kind {
        LayerKind::IntGrid => {
            let values = reverse_rows(copy_values(&layer.int_grid_csv), layer.c_wid);
            match load_tile_rows(&layer.auto_layer_tiles, layer_dimensions_px, layer.c_wid) {
                Ok(auto_layer) => Ok(SpecialValues::IntGrid { values, auto_layer }),
                Err(error) => Err(error),
            }
        },
        LayerKind::Entities => {
            match ProjectEntities::deserialize_ldtk(
                layer.entity_instances.as_slice(),
                kinds,
                enums,
                IVec2 { x: layer.c_wid, y: layer.c_hei },
                layer_dimensions_px,
            ) {
                Ok(entities) => Ok(SpecialValues::Entities(entities)),
                Err(error) => Err(error),
            }
        },
        LayerKind::Tiles => {
            match load_tile_rows(&layer.grid_tiles, layer_dimensions_px, layer.c_wid) {
                Ok(tiles) => Ok(SpecialValues::Tiles { tileset: layer.tileset_def_uid, tiles }),
                Err(error) => Err(error),
            }
        },
        LayerKind::AutoLayer => {
            match load_tile_rows(&layer.auto_layer_tiles, layer_dimensions_px, layer.c_wid) {
                Ok(auto_layer) => Ok(SpecialValues::AutoLayer { auto_layer }),
                Err(error) => Err(error),
            }
        },
    }
}

impl Layer {
    /// Decodes a layer instance against the compiled entity kinds and enumerations.
    pub fn load(
        ldtk_layer: &LayerInstance,
        kinds: &[EntitySchema],
        enums: &[EnumSchema],
    ) -> (loaded: LdtkResult<Layer>)
        ensures
            viewed(loaded) == layer_of(*ldtk_layer, views(kinds@), views(enums@)),
    {
        let kind = match LayerKind::parse(ldtk_layer.kind.as_str()) {
            Some(kind) => kind,
            None => {
                return Err(LdtkError::UnknownLayerType(ldtk_layer.kind.clone()));
            },
        };
        let width_px = match scaled(ldtk_layer.c_wid, ldtk_layer.grid_size) {
            Some(extent) => extent,
            None => {
                return Err(LdtkError::CoordinateOutOfRange);
            },
        };
        let height_px = match scaled(ldtk_layer.c_hei, ldtk_layer.grid_size) {
            Some(extent) => extent,
            None => {
                return Err(LdtkError::CoordinateOutOfRange);
            },
        };
        let offset_y = match flip_offset(ldtk_layer.px_total_offset_y, height_px) {
            Some(y) => y,
            None => {
                return Err(LdtkError::CoordinateOutOfRange);
            },
        };
        match load_special_values(
            ldtk_layer,
            kind,
            IVec2 { x: width_px, y: height_px },
            kinds,
            enums,
        ) {
            Ok(special) => Ok(
                Layer {
                    dimensions_cell: IVec2 { x: ldtk_layer.c_wid, y: ldtk_layer.c_hei },
                    grid_size: ldtk_layer.grid_size,
                    opacity: ldtk_layer.opacity,
                    total_offset_px: IVec2 { x: ldtk_layer.px_total_offset_x, y: offset_y },
                    visible: ldtk_layer.visible,
                    tileset_uid: ldtk_layer.tileset_def_uid,
                    layer_definition: ldtk_layer.layer_def_uid,
                    special,
                },
            ),
            Err(error) => Err(error),
        }
    }
}

/// The kind of layer that holds such contents.
pub open spec fn kind_of_values(special: SpecialValuesView) -> LayerKind {
    match special {
        SpecialValuesView::IntGrid { .. } => LayerKind::IntGrid,
        SpecialValuesView::Entities(_) => LayerKind::Entities,
        SpecialValuesView::Tiles { .. } => LayerKind::Tiles,
        SpecialValuesView::AutoLayer { .. } => LayerKind::AutoLayer,
    }
}

/// A layer that was decoded holds the contents of the kind that its instance
/// names, and as many grid values as the instance.
pub proof fn lemma_layer_holds_its_kind(
    layer: LayerInstance,
    kinds: Seq<EntitySchemaView>,
    enums: Seq<EnumSchemaView>,
)
    requires
        layer_of(layer, kinds, enums) is Ok,
    ensures
        layer_kind_named(layer.kind@) == Some(
            kind_of_values(layer_of(layer, kinds, enums)->Ok_0.special),
        ),
        layer_of(layer, kinds, enums)->Ok_0.special is IntGrid ==> layer_of(
            layer,
            kinds,
            enums,
        )->Ok_0.special->IntGrid_values.len() == layer.int_grid_csv@.len(),
{
    lemma_rows_reversed_len(layer.int_grid_csv@, layer.c_wid as int);
}

/// A layer whose kind is none of the four that are known is rejected, with
/// an error that names the kind.
pub proof fn lemma_unknown_layer_kind_rejected(
    layer: LayerInstance,
    kinds: Seq<EntitySchemaView>,
    enums: Seq<EnumSchemaView>,
)
    requires
        layer_kind_named(layer.kind@) is None,
    ensures
        layer_of(layer, kinds, enums) == Err::<LayerView, LdtkErrorView>(
            LdtkErrorView::UnknownLayerType(layer.kind@),
        ),
{
}

} // verus!
