use crate::color::color_of_hex;
use crate::color::Rgb;
use crate::coords::IVec2;
use crate::document::IntGridValueDef;
use crate::document::LayerDef;
use crate::document::TilesetDef;
use crate::error::all_viewed;
use crate::error::gathered;
use crate::error::lemma_gathered_all;
use crate::error::lemma_gathered_fails_at;
use crate::error::lemma_gathered_next;
use crate::error::lemma_gathered_none;
use crate::error::lemma_views_none;
use crate::error::lemma_views_push;
use crate::error::viewed;
use crate::error::views;
use crate::error::LdtkError;
use crate::error::LdtkErrorView;
use crate::error::LdtkResult;
use crate::text::str_eq;
use vstd::prelude::*;

verus! {

/// The kind of a layer.
#[derive(Clone, Copy, Debug, PartialEq, Eq, Structural)]
pub enum LayerKind {
    IntGrid,
    Entities,
    Tiles,
    AutoLayer,
}

/// The layer kind that a text names.
pub open spec fn layer_kind_named(text: Seq<char>) -> Option<LayerKind> {
    if text == "IntGrid"@ {
        Some(LayerKind::IntGrid)
    } else if text == "Entities"@ {
        Some(LayerKind::Entities)
    } else if text == "Tiles"@ {
        Some(LayerKind::Tiles)
    } else if text == "AutoLayer"@ {
        Some(LayerKind::AutoLayer)
    } else {
        None
    }
}

impl LayerKind {
    /// Reads the name of a layer kind; `None` for any other text.
    pub fn parse(text: &str) -> (kind: Option<LayerKind>)
        ensures
            kind == layer_kind_named(text@),
    {
        if str_eq(text, "IntGrid") {
            Some(LayerKind::IntGrid)
        } else if str_eq(text, "Entities") {
            Some(LayerKind::Entities)
        } else if str_eq(text, "Tiles") {
            Some(LayerKind::Tiles)
        } else if str_eq(text, "AutoLayer") {
            Some(LayerKind::AutoLayer)
        } else {
            None
        }
    }
}

/// A tileset of a project.
#[derive(Debug, PartialEq, Eq)]
pub struct Tileset {
    pub grid_size: i64,
    pub ident: String,
    pub padding: i64,
    pub dimensions_cell: IVec2,
    pub rel_path: Option<String>,
    pub id: i64,
}

/// [`Tileset`] as a mathematical value: texts as sequences of characters,
/// vectors as sequences.
pub struct TilesetView {
    pub grid_size: i64,
    pub ident: Seq<char>,
    pub padding: i64,
    pub dimensions_cell: IVec2,
    pub rel_path: Option<Seq<char>>,
    pub id: i64,
}

/// The characters of a text that may be absent.
pub open spec fn text_of(text: Option<String>) -> Option<Seq<char>> {
    match text {
        Some(text) => Some(text@),
        None => None,
    }
}

impl View for Tileset {
    type V = TilesetView;

    open spec fn view(&self) -> TilesetView {
        TilesetView {
            grid_size: self.grid_size,
            ident: self.ident@,
            padding: self.padding,
            dimensions_cell: self.dimensions_cell,
            rel_path: text_of(self.rel_path),
            id: self.id,
        }
    }
}

/// The tileset that a definition declares.
pub open spec fn tileset_of(tileset: TilesetDef) -> TilesetView {
    TilesetView {
        grid_size: tileset.tile_grid_size,
        ident: tileset.identifier@,
        padding: tileset.padding,
        dimensions_cell: IVec2 { x: tileset.c_wid, y: tileset.c_hei },
        rel_path: text_of(tileset.rel_path),
        id: tileset.uid,
    }
}

pub(crate) fn copy_text(text: &Option<String>) -> (copy: Option<String>)
    ensures
        text_of(copy) == text_of(*text),
{
    match text {
        Some(text) => Some(text.clone()),
        None => None,
    }
}

impl Tileset {
    /// The tileset that a definition declares.
    pub fn from_def(tileset: &TilesetDef) -> (declared: Tileset)
        ensures
            declared@ == tileset_of(*tileset),
    {
        Tileset {
            grid_size: tileset.tile_grid_size,
            ident: tileset.identifier.clone(),
            padding: tileset.padding,
            dimensions_cell: IVec2 { x: tileset.c_wid, y: tileset.c_hei },
            rel_path: copy_text(&tileset.rel_path),
            id: tileset.uid,
        }
    }

    /// Reads a tileset definition. This never fails.
    pub fn load(tileset: &TilesetDef) -> (loaded: LdtkResult<Tileset>)
        ensures
            viewed(loaded) == Ok::<TilesetView, LdtkErrorView>(tileset_of(*tileset)),
    {
        Ok(Tileset::from_def(tileset))
    }
}

/// A value that the cells of an `IntGrid` layer can take.
#[derive(Debug, PartialEq, Eq)]
pub struct IntGridValueDefinition {
    pub color: Rgb,
    pub identifier: Option<String>,
    pub value: i64,
}

/// [`IntGridValueDefinition`] as a mathematical value: texts as sequences of characters,
/// vectors as sequences.
pub struct IntGridValueDefinitionView {
    pub color: Rgb,
    pub identifier: Option<Seq<char>>,
    pub value: i64,
}

impl View for IntGridValueDefinition {
    type V = IntGridValueDefinitionView;

    open spec fn view(&self) -> IntGridValueDefinitionView {
        IntGridValueDefinitionView {
            color: self.color,
            identifier: text_of(self.identifier),
            value: self.value,
        }
    }
}

/// What the definition of a layer holds, by its kind.
#[derive(Debug, PartialEq, Eq)]
pub enum SpecialLayerDefinitions {
    IntGrid { value_definitions: Vec<IntGridValueDefinition> },
    Entities,
    Tiles,
    AutoLayer,
}

/// [`SpecialLayerDefinitions`] as a mathematical value: texts as sequences of characters,
/// vectors as sequences.
pub enum SpecialLayerDefinitionsView {
    IntGrid { value_definitions: Seq<IntGridValueDefinitionView> },
    Entities,
    Tiles,
    AutoLayer,
}

impl View for SpecialLayerDefinitions {
    type V = SpecialLayerDefinitionsView;

    open spec fn view(&self) -> SpecialLayerDefinitionsView {
        match self {
            SpecialLayerDefinitions::IntGrid {
                value_definitions,
            } => SpecialLayerDefinitionsView::IntGrid {
                value_definitions: views(value_definitions@),
            },
            SpecialLayerDefinitions::Entities => SpecialLayerDefinitionsView::Entities,
            SpecialLayerDefinitions::Tiles => SpecialLayerDefinitionsView::Tiles,
            SpecialLayerDefinitions::AutoLayer => SpecialLayerDefinitionsView::AutoLayer,
        }
    }
}

/// The definition of a layer.
#[derive(Debug, PartialEq, Eq)]
pub struct LayerDefinition {
    pub id: i64,
    pub special: SpecialLayerDefinitions,
}

/// [`LayerDefinition`] as a mathematical value: texts as sequences of characters,
/// vectors as sequences.
pub struct LayerDefinitionView {
    pub id: i64,
    pub special: SpecialLayerDefinitionsView,
}

impl View for LayerDefinition {
    type V = LayerDefinitionView;

    open spec fn view(&self) -> LayerDefinitionView {
        LayerDefinitionView { id: self.id, special: self.special@ }
    }
}

/// The value that a value definition declares, or the error that holds its
/// malformed colour literal.
pub open spec fn int_grid_value_of(def: IntGridValueDef) -> Result<
    IntGridValueDefinitionView,
    LdtkErrorView,
> {
    match color_of_hex(def.color@) {
        Some(color) => Ok(
            IntGridValueDefinitionView {
                color,
                identifier: text_of(def.identifier),
                value: def.value,
            },
        ),
        None => Err(LdtkErrorView::MalformedColor { text: def.color@ }),
    }
}

/// The layer definition that a declaration stands for. A kind that is not
/// known gives the error that names the layer and the kind; in an `IntGrid`
/// layer the first malformed colour gives the error.
pub open spec fn layer_definition_of(def: LayerDef) -> Result<LayerDefinitionView, LdtkErrorView> {
    match layer_kind_named(def.kind@) {
        None => Err(
            LdtkErrorView::UnknownLayerKind { identifier: def.identifier@, kind: def.kind@ },
        ),
        Some(LayerKind::IntGrid) => match gathered(
            Seq::new(
                def.int_grid_values@.len(),
                |i: int| int_grid_value_of(def.int_grid_values@[i]),
            ),
        ) {
            Ok(value_definitions) => Ok(
                LayerDefinitionView {
                    id: def.uid,
                    special: SpecialLayerDefinitionsView::IntGrid { value_definitions },
                },
            ),
            Err(error) => Err(error),
        },
        Some(LayerKind::Entities) => Ok(
            LayerDefinitionView { id: def.uid, special: SpecialLayerDefinitionsView::Entities },
        ),
        Some(LayerKind::Tiles) => Ok(
            LayerDefinitionView { id: def.uid, special: SpecialLayerDefinitionsView::Tiles },
        ),
        Some(LayerKind::AutoLayer) => Ok(
            LayerDefinitionView { id: def.uid, special: SpecialLayerDefinitionsView::AutoLayer },
        ),
    }
}

fn load_int_grid_value(def: &IntGridValueDef) -> (loaded: LdtkResult<IntGridValueDefinition>)
    ensures
        viewed(loaded) == int_grid_value_of(*def),
{
    match Rgb::parse_hex(def.color.as_str()) {
        Some(color) => Ok(
            IntGridValueDefinition {
                color,
                identifier: copy_text(&def.identifier),
                value: def.value,
            },
        ),
        None => Err(LdtkError::MalformedColor { text: def.color.clone() }),
    }
}

fn load_int_grid_values(defs: &Vec<IntGridValueDef>) -> (loaded: LdtkResult<
    Vec<IntGridValueDefinition>,
>)
    ensures
        all_viewed(loaded) == gathered(
            Seq::new(defs@.len(), |i: int| int_grid_value_of(defs@[i])),
        ),
{
    let ghost steps = Seq::new(defs@.len(), |i: int| int_grid_value_of(defs@[i]));
    let mut loaded: Vec<IntGridValueDefinition> = Vec::new();
    let mut i: usize = 0;
    proof {
        lemma_gathered_none(steps);
        lemma_views_none::<IntGridValueDefinition>();
    }
    while i < defs.len()
        invariant
            i <= defs.len(),
            steps == Seq::new(defs@.len(), |i: int| int_grid_value_of(defs@[i])),
            gathered(steps.take(i as int)) == Ok::<Seq<IntGridValueDefinitionView>, LdtkErrorView>(
                views(loaded@),
            ),
        decreases defs.len() - i,
    {
        match load_int_grid_value(&defs[i]) {
            Ok(value) => {
                proof {
                    lemma_gathered_next(steps, i as int, value@);
                    lemma_views_push(loaded@, value);
                }
                loaded.push(value);
            },
            Err(error) => {
                proof {
                    lemma_gathered_fails_at(steps, i as int, error@);
                }
                return Err(error);
            },
        }
        i += 1;
    }
    proof {
        lemma_gathered_all(steps);
    }
    Ok(loaded)
}

impl LayerDefinition {
    /// Reads the definition of a layer.
    pub fn load(layer_definition: &LayerDef) -> (loaded: LdtkResult<LayerDefinition>)
        ensures
            viewed(loaded) == layer_definition_of(*layer_definition),
    {
        let id = layer_definition.uid;
        match LayerKind::parse(layer_definition.kind.as_str()) {
            None => Err(
                LdtkError::UnknownLayerKind {
                    identifier: layer_definition.identifier.clone(),
                    kind: layer_definition.kind.clone(),
                },
            ),
            Some(LayerKind::IntGrid) => match load_int_grid_values(
                &layer_definition.int_grid_values,
            ) {
                Ok(value_definitions) => Ok(
                    LayerDefinition {
                        id,
                        special: SpecialLayerDefinitions::IntGrid { value_definitions },
                    },
                ),
                Err(error) => Err(error),
            },
            Some(LayerKind::Entities) => Ok(
                LayerDefinition { id, special: SpecialLayerDefinitions::Entities },
            ),
            Some(LayerKind::Tiles) => Ok(
                LayerDefinition { id, special: SpecialLayerDefinitions::Tiles },
            ),
            Some(LayerKind::AutoLayer) => Ok(
                LayerDefinition { id, special: SpecialLayerDefinitions::AutoLayer },
            ),
        }
    }
}

} // verus!
