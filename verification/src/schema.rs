use crate::definitions::layer_definition_of;
use crate::definitions::tileset_of;
use crate::definitions::LayerDefinition;
use crate::definitions::LayerDefinitionView;
use crate::definitions::Tileset;
use crate::definitions::TilesetView;
use crate::document::Definitions;
use crate::document::EntityDef;
use crate::document::EnumDef;
use crate::document::FieldDef;
use crate::document::LayerDef;
use crate::document::TilesetDef;
use crate::error::gathered;
use crate::error::all_viewed;
use crate::error::lemma_gathered_all;
use crate::error::lemma_gathered_fails_at;
use crate::error::lemma_gathered_next;
use crate::error::lemma_gathered_none;
use crate::error::lemma_views_none;
use crate::error::lemma_views_push;
use crate::error::viewed;
use crate::error::views;
use crate::error::LdtkError;
use crate::error::LdtkErrorView;
use crate::error::LdtkResult;
use crate::lookup::find_keyed;
use crate::lookup::keys_of;
use crate::lookup::position_of;
use crate::lookup::Keyed;
use crate::naming::camel_case_of;
use crate::naming::snake_case_of;
use crate::naming::to_camel_case;
use crate::naming::to_snake_case;
use crate::text::ends_with;
use crate::text::occurs_at;
use crate::text::starts_with;
use crate::text::str_eq;
use vstd::prelude::*;
use vstd::string::StrSliceExecFns;
use vstd::string::StringExecFns;

verus! {

/// The kind of the values of a field, before any wrapping.
#[derive(Debug, PartialEq, Eq)]
pub enum FieldKind {
    /// An integer.
    Int,
    /// A floating-point number.
    Float,
    /// A text.
    Text,
    /// A text that names a file.
    FilePath,
    /// A boolean.
    Bool,
    /// A colour of three channels.
    Color,
    /// A point of two coordinates.
    Point,
    /// A value of the compiled enumeration of this name.
    LocalEnum { name: String },
}

/// [`FieldKind`] as a mathematical value: texts as sequences of characters,
/// vectors as sequences.
pub enum FieldKindView {
    Int,
    Float,
    Text,
    FilePath,
    Bool,
    Color,
    Point,
    LocalEnum { name: Seq<char> },
}

impl View for FieldKind {
    type V = FieldKindView;

    open spec fn view(&self) -> FieldKindView {
        match self {
            FieldKind::Int => FieldKindView::Int,
            FieldKind::Float => FieldKindView::Float,
            FieldKind::Text => FieldKindView::Text,
            FieldKind::FilePath => FieldKindView::FilePath,
            FieldKind::Bool => FieldKindView::Bool,
            FieldKind::Color => FieldKindView::Color,
            FieldKind::Point => FieldKindView::Point,
            FieldKind::LocalEnum { name } => FieldKindView::LocalEnum { name: name@ },
        }
    }
}

/// How the values of a field are wrapped: an array wraps the kind in a
/// sequence first, and a field that can be null wraps the outcome in an option.
#[derive(Clone, Copy, Debug, PartialEq, Eq, Structural)]
pub enum Wrapping {
    Plain,
    Sequence,
    Optional,
    OptionalSequence,
}

/// The wrapping of a field that is or is not an array and can or cannot be null.
pub open spec fn wrapping_of(is_array: bool, can_be_null: bool) -> Wrapping {
    if can_be_null {
        if is_array {
            Wrapping::OptionalSequence
        } else {
            Wrapping::Optional
        }
    } else {
        if is_array {
            Wrapping::Sequence
        } else {
            Wrapping::Plain
        }
    }
}

/// The compiled shape of a custom field.
#[derive(Debug, PartialEq, Eq)]
pub struct FieldSchema {
    /// The identifier as declared.
    pub identifier: String,
    /// The member name: the identifier in lower snake case.
    pub name: String,
    pub kind: FieldKind,
    pub is_array: bool,
    pub can_be_null: bool,
}

/// [`FieldSchema`] as a mathematical value: texts as sequences of characters,
/// vectors as sequences.
pub struct FieldSchemaView {
    pub identifier: Seq<char>,
    pub name: Seq<char>,
    pub kind: FieldKindView,
    pub is_array: bool,
    pub can_be_null: bool,
}

impl View for FieldSchema {
    type V = FieldSchemaView;

    open spec fn view(&self) -> FieldSchemaView {
        FieldSchemaView {
            identifier: self.identifier@,
            name: self.name@,
            kind: self.kind@,
            is_array: self.is_array,
            can_be_null: self.can_be_null,
        }
    }
}

impl FieldSchema {
    /// How the values of the field are wrapped.
    pub fn wrapping(&self) -> (wrapping: Wrapping)
        ensures
            wrapping == wrapping_of(self.is_array, self.can_be_null),
    {
        if self.can_be_null {
            if self.is_array {
                Wrapping::OptionalSequence
            } else {
                Wrapping::Optional
            }
        } else {
            if self.is_array {
                Wrapping::Sequence
            } else {
                Wrapping::Plain
            }
        }
    }
}

/// A value of a compiled enumeration.
#[derive(Debug, PartialEq, Eq)]
pub struct EnumValueSchema {
    /// The identifier as declared: the text that stands for the value in a
    /// document.
    pub identifier: String,
    /// The variant name: the identifier in upper camel case.
    pub name: String,
}

/// [`EnumValueSchema`] as a mathematical value: texts as sequences of characters,
/// vectors as sequences.
pub struct EnumValueSchemaView {
    pub identifier: Seq<char>,
    pub name: Seq<char>,
}

impl View for EnumValueSchema {
    type V = EnumValueSchemaView;

    open spec fn view(&self) -> EnumValueSchemaView {
        EnumValueSchemaView { identifier: self.identifier@, name: self.name@ }
    }
}

impl Keyed for EnumValueSchema {
    open spec fn key(&self) -> Seq<char> {
        self.identifier@
    }

    fn key_text(&self) -> (text: &str) {
        self.identifier.as_str()
    }
}

/// The compiled shape of an enumeration.
#[derive(Debug, PartialEq, Eq)]
pub struct EnumSchema {
    /// The identifier as declared.
    pub identifier: String,
    /// The type name: the identifier in upper camel case.
    pub name: String,
    /// The values, in the order of their declaration.
    pub values: Vec<EnumValueSchema>,
}

/// [`EnumSchema`] as a mathematical value: texts as sequences of characters,
/// vectors as sequences.
pub struct EnumSchemaView {
    pub identifier: Seq<char>,
    pub name: Seq<char>,
    pub values: Seq<EnumValueSchemaView>,
}

impl View for EnumSchema {
    type V = EnumSchemaView;

    open spec fn view(&self) -> EnumSchemaView {
        EnumSchemaView {
            identifier: self.identifier@,
            name: self.name@,
            values: views(self.values@),
        }
    }
}

impl Keyed for EnumSchema {
    open spec fn key(&self) -> Seq<char> {
        self.name@
    }

    fn key_text(&self) -> (text: &str) {
        self.name.as_str()
    }
}

/// Whether a declared type is that of an array.
pub open spec fn declares_array(declared: Seq<char>) -> bool {
    occurs_at("Array<"@, declared, 0)
}

/// The kind that a declared type names: for an array what stands between
/// `Array<` and the last character of the text, else the whole text.
pub open spec fn declared_item(declared: Seq<char>) -> Seq<char> {
    if declares_array(declared) && declared.len() > "Array<"@.len() {
        declared.subrange("Array<"@.len() as int, declared.len() - 1)
    } else {
        declared
    }
}

/// The kind that a text names, without regard to the enumerations that exist.
pub open spec fn kind_named(item: Seq<char>) -> Option<FieldKindView> {
    if item == "Int"@ {
        Some(FieldKindView::Int)
    } else if item == "Float"@ {
        Some(FieldKindView::Float)
    } else if item == "String"@ {
        Some(FieldKindView::Text)
    } else if item == "FilePath"@ {
        Some(FieldKindView::FilePath)
    } else if item == "Bool"@ {
        Some(FieldKindView::Bool)
    } else if item == "Color"@ {
        Some(FieldKindView::Color)
    } else if item == "Point"@ {
        Some(FieldKindView::Point)
    } else if occurs_at("LocalEnum."@, item, 0) {
        Some(
            FieldKindView::LocalEnum {
                name: camel_case_of(item.skip("LocalEnum."@.len() as int)),
            },
        )
    } else {
        None
    }
}

/// The kind that a text names where the compiled enumerations have the names
/// `enum_names`: an enumeration that was not compiled is no kind.
pub open spec fn kind_of(item: Seq<char>, enum_names: Seq<Seq<char>>) -> Option<FieldKindView> {
    match kind_named(item) {
        Some(FieldKindView::LocalEnum { name }) => if position_of(enum_names, name) is Some {
            Some(FieldKindView::LocalEnum { name })
        } else {
            None
        },
        other => other,
    }
}

/// The compiled shape of a field definition, or the error that names the
/// field and the kind that is not known.
pub open spec fn field_schema_of(def: FieldDef, enum_names: Seq<Seq<char>>) -> Result<
    FieldSchemaView,
    LdtkErrorView,
> {
    match kind_of(declared_item(def.kind@), enum_names) {
        Some(kind) => Ok(
            FieldSchemaView {
                identifier: def.identifier@,
                name: snake_case_of(def.identifier@),
                kind,
                is_array: declares_array(def.kind@),
                can_be_null: def.can_be_null,
            },
        ),
        None => Err(
            LdtkErrorView::UnknownFieldKind {
                identifier: def.identifier@,
                kind: declared_item(def.kind@),
            },
        ),
    }
}

/// The compiled shapes of a list of field definitions, or the error of the
/// first that has none.
pub open spec fn field_schemas_of(defs: Seq<FieldDef>, enum_names: Seq<Seq<char>>) -> Result<
    Seq<FieldSchemaView>,
    LdtkErrorView,
> {
    gathered(Seq::new(defs.len(), |i: int| field_schema_of(defs[i], enum_names)))
}

impl FieldKind {
    /// The kind of the values of the enumeration named `name`, if `enums`
    /// holds an enumeration of that name.
    pub fn local_enum(name: String, enums: &[EnumSchema]) -> (kind: Option<FieldKind>)
        ensures
            (match kind {
                Some(kind) => position_of(keys_of(enums@), name@) is Some && kind@ == (
                FieldKindView::LocalEnum { name: name@ }),
                None => position_of(keys_of(enums@), name@) is None,
            }),
    {
        match find_keyed(enums, name.as_str()) {
            Some(_) => Some(FieldKind::LocalEnum { name }),
            None => None,
        }
    }
}

fn parse_kind(item: &str, enums: &[EnumSchema]) -> (kind: Option<FieldKind>)
    ensures
        (match kind {
            Some(k) => kind_of(item@, keys_of(enums@)) == Some(k@),
            None => kind_of(item@, keys_of(enums@)) is None,
        }),
{
    if str_eq(item, "Int") {
        Some(FieldKind::Int)
    } else if str_eq(item, "Float") {
        Some(FieldKind::Float)
    } else if str_eq(item, "String") {
        Some(FieldKind::Text)
    } else if str_eq(item, "FilePath") {
        Some(FieldKind::FilePath)
    } else if str_eq(item, "Bool") {
        Some(FieldKind::Bool)
    } else if str_eq(item, "Color") {
        Some(FieldKind::Color)
    } else if str_eq(item, "Point") {
        Some(FieldKind::Point)
    } else if starts_with(item, "LocalEnum.") {
        let rest = item.substring_char("LocalEnum.".unicode_len(), item.unicode_len());
        assert(rest@ =~= item@.skip("LocalEnum."@.len() as int));
        FieldKind::local_enum(to_camel_case(rest), enums)
    } else {
        None
    }
}

fn define_field(def: &FieldDef, enums: &[EnumSchema]) -> (schema: LdtkResult<FieldSchema>)
    ensures
        viewed(schema) == field_schema_of(*def, keys_of(enums@)),
{
    let declared = def.kind.as_str();
    let is_array = starts_with(declared, "Array<");
    let len = declared.unicode_len();
    let item = if is_array && len > "Array<".unicode_len() {
        declared.substring_char("Array<".unicode_len(), len - 1)
    } else {
        declared
    };
    match parse_kind(item, enums) {
        Some(kind) => Ok(
            FieldSchema {
                identifier: def.identifier.clone(),
                name: to_snake_case(def.identifier.as_str()),
                kind,
                is_array,
                can_be_null: def.can_be_null,
            },
        ),
        None => Err(
            LdtkError::UnknownFieldKind {
                identifier: def.identifier.clone(),
                kind: String::from_str(item),
            },
        ),
    }
}

/// Compiles the shapes of the custom fields of a level or of an entity.
pub fn define_fields(field_defs: &[FieldDef], enums: &[EnumSchema]) -> (schemas: LdtkResult<
    Vec<FieldSchema>,
>)
    ensures
        all_viewed(schemas) == field_schemas_of(field_defs@, keys_of(enums@)),
{
    let ghost steps = Seq::new(
        field_defs@.len(),
        |i: int| field_schema_of(field_defs@[i], keys_of(enums@)),
    );
    let mut schemas: Vec<FieldSchema> = Vec::new();
    let mut i: usize = 0;
    proof {
        lemma_gathered_none(steps);
        lemma_views_none::<FieldSchema>();
    }
    while i < field_defs.len()
        invariant
            i <= field_defs.len(),
            steps == Seq::new(
                field_defs@.len(),
                |i: int| field_schema_of(field_defs@[i], keys_of(enums@)),
            ),
            gathered(steps.take(i as int)) == Ok::<Seq<FieldSchemaView>, LdtkErrorView>(
                views(schemas@),
            ),
        decreases field_defs.len() - i,
    {
        match define_field(&field_defs[i], enums) {
            Ok(schema) => {
                proof {
                    lemma_gathered_next(steps, i as int, schema@);
                    lemma_views_push(schemas@, schema);
                }
                schemas.push(schema);
            },
            Err(error) => {
                proof {
                    lemma_gathered_fails_at(steps, i as int, error@);
                }
                return Err(error);
            },
        }
        i += 1;
    }
    proof {
        lemma_gathered_all(steps);
    }
    Ok(schemas)
}

/// The compiled shape of the declared value `identifier` of an enumeration.
pub open spec fn enum_value_schema_of(identifier: Seq<char>) -> EnumValueSchemaView {
    EnumValueSchemaView { identifier, name: camel_case_of(identifier) }
}

/// The compiled shape of an enumeration definition: one value for each
/// declared value, in the order of the declaration, each under its declared
/// identifier.
pub open spec fn enum_schema_of(def: EnumDef) -> EnumSchemaView {
    EnumSchemaView {
        identifier: def.identifier@,
        name: camel_case_of(def.identifier@),
        values: Seq::new(def.values@.len(), |i: int| enum_value_schema_of(def.values@[i]@)),
    }
}

fn define_enum(def: &EnumDef) -> (schema: EnumSchema)
    ensures
        schema@ == enum_schema_of(*def),
{
    let mut values: Vec<EnumValueSchema> = Vec::new();
    let mut i: usize = 0;
    while i < def.values.len()
        invariant
            i <= def.values.len(),
            values.len() == i,
            forall|j: int| 0 <= j < i ==> values@[j]@ == enum_value_schema_of(def.values@[j]@),
        decreases def.values.len() - i,
    {
        values.push(
            EnumValueSchema {
                identifier: def.values[i].clone(),
                name: to_camel_case(def.values[i].as_str()),
            },
        );
        i += 1;
    }
    let schema = EnumSchema {
        identifier: def.identifier.clone(),
        name: to_camel_case(def.identifier.as_str()),
        values,
    };
    proof {
        assert(schema@.values =~= enum_schema_of(*def).values);
    }
    schema
}

/// The names of the compiled enumerations of a list of definitions.
pub open spec fn enum_names_of(defs: Seq<EnumDef>) -> Seq<Seq<char>> {
    Seq::new(defs.len(), |i: int| camel_case_of(defs[i].identifier@))
}

/// Compiles the enumerations of a project, in the order of their definitions.
pub fn define_enums(enums: &[EnumDef]) -> (schemas: Vec<EnumSchema>)
    ensures
        views(schemas@) == Seq::new(enums@.len(), |i: int| enum_schema_of(enums@[i])),
        keys_of(schemas@) == enum_names_of(enums@),
{
    let mut schemas: Vec<EnumSchema> = Vec::new();
    let mut i: usize = 0;
    while i < enums.len()
        invariant
            i <= enums.len(),
            schemas.len() == i,
            forall|j: int| 0 <= j < i ==> schemas@[j]@ == enum_schema_of(enums@[j]),
        decreases enums.len() - i,
    {
        schemas.push(define_enum(&enums[i]));
        i += 1;
    }
    proof {
        assert(views(schemas@) =~= Seq::new(enums@.len(), |i: int| enum_schema_of(enums@[i])));
        assert(keys_of(schemas@) =~= enum_names_of(enums@));
    }
    schemas
}

/// The compiled shape of an entity kind.
#[derive(Debug, PartialEq, Eq)]
pub struct EntitySchema {
    /// The identifier as declared.
    pub identifier: String,
    /// The type name: the identifier in upper camel case.
    pub name: String,
    /// The type name of the record of custom fields: `name` and `Fields`.
    pub fields_name: String,
    /// The member name of the entities of this kind: `all_` and the
    /// identifier in lower snake case.
    pub group_name: String,
    pub fields: Vec<FieldSchema>,
}

/// [`EntitySchema`] as a mathematical value: texts as sequences of characters,
/// vectors as sequences.
pub struct EntitySchemaView {
    pub identifier: Seq<char>,
    pub name: Seq<char>,
    pub fields_name: Seq<char>,
    pub group_name: Seq<char>,
    pub fields: Seq<FieldSchemaView>,
}

impl View for EntitySchema {
    type V = EntitySchemaView;

    open spec fn view(&self) -> EntitySchemaView {
        EntitySchemaView {
            identifier: self.identifier@,
            name: self.name@,
            fields_name: self.fields_name@,
            group_name: self.group_name@,
            fields: views(self.fields@),
        }
    }
}

impl Keyed for EntitySchema {
    open spec fn key(&self) -> Seq<char> {
        self.identifier@
    }

    fn key_text(&self) -> (text: &str) {
        self.identifier.as_str()
    }
}

/// The compiled shape of an entity definition, or the error of the first of
/// its fields that has none.
pub open spec fn entity_schema_of(def: EntityDef, enum_names: Seq<Seq<char>>) -> Result<
    EntitySchemaView,
    LdtkErrorView,
> {
    match field_schemas_of(def.field_defs@, enum_names) {
        Ok(fields) => Ok(
            EntitySchemaView {
                identifier: def.identifier@,
                name: camel_case_of(def.identifier@),
                fields_name: camel_case_of(def.identifier@) + "Fields"@,
                group_name: "all_"@ + snake_case_of(def.identifier@),
                fields,
            },
        ),
        Err(error) => Err(error),
    }
}

/// The compiled shapes of a list of entity definitions, or the error of the
/// first that has none.
pub open spec fn entity_schemas_of(defs: Seq<EntityDef>, enum_names: Seq<Seq<char>>) -> Result<
    Seq<EntitySchemaView>,
    LdtkErrorView,
> {
    gathered(Seq::new(defs.len(), |i: int| entity_schema_of(defs[i], enum_names)))
}

/// The type name of the record of custom fields of the entity kind named `name`.
pub fn fields_record_name(name: &str) -> (fields_name: String)
    ensures
        fields_name@ == name@ + "Fields"@,
{
    String::from_str(name).concat("Fields")
}

/// The member name of the entities of the kind whose identifier is `snake`
/// in lower snake case.
pub fn group_member_name(snake: &str) -> (group_name: String)
    ensures
        group_name@ == "all_"@ + snake@,
{
    String::from_str("all_").concat(snake)
}

fn define_entity(def: &EntityDef, enums: &[EnumSchema]) -> (schema: LdtkResult<EntitySchema>)
    ensures
        viewed(schema) == entity_schema_of(*def, keys_of(enums@)),
{
    match define_fields(def.field_defs.as_slice(), enums) {
        Ok(fields) => {
            let name = to_camel_case(def.identifier.as_str());
            let fields_name = fields_record_name(name.as_str());
            let group_name = group_member_name(to_snake_case(def.identifier.as_str()).as_str());
            Ok(
                EntitySchema {
                    identifier: def.identifier.clone(),
                    name,
                    fields_name,
                    group_name,
                    fields,
                },
            )
        },
        Err(error) => Err(error),
    }
}

/// Compiles the entity kinds of a project, in the order of their definitions.
pub fn define_entities(ldtk_entities: &[EntityDef], enums: &[EnumSchema]) -> (schemas: LdtkResult<
    Vec<EntitySchema>,
>)
    ensures
        all_viewed(schemas) == entity_schemas_of(ldtk_entities@, keys_of(enums@)),
{
    let ghost steps = Seq::new(
        ldtk_entities@.len(),
        |i: int| entity_schema_of(ldtk_entities@[i], keys_of(enums@)),
    );
    let mut schemas: Vec<EntitySchema> = Vec::new();
    let mut i: usize = 0;
    proof {
        lemma_gathered_none(steps);
        lemma_views_none::<EntitySchema>();
    }
    while i < ldtk_entities.len()
        invariant
            i <= ldtk_entities.len(),
            steps == Seq::new(
                ldtk_entities@.len(),
                |i: int| entity_schema_of(ldtk_entities@[i], keys_of(enums@)),
            ),
            gathered(steps.take(i as int)) == Ok::<Seq<EntitySchemaView>, LdtkErrorView>(
                views(schemas@),
            ),
        decreases ldtk_entities.len() - i,
    {
        match define_entity(&ldtk_entities[i], enums) {
            Ok(schema) => {
                proof {
                    lemma_gathered_next(steps, i as int, schema@);
                    lemma_views_push(schemas@, schema);
                }
                schemas.push(schema);
            },
            Err(error) => {
                proof {
                    lemma_gathered_fails_at(steps, i as int, error@);
                }
                return Err(error);
            },
        }
        i += 1;
    }
    proof {
        lemma_gathered_all(steps);
    }
    Ok(schemas)
}

/// The compiled shape of a layer of a level.
#[derive(Debug, PartialEq, Eq)]
pub struct LayerSchema {
    /// The identifier as declared.
    pub identifier: String,
    /// The member name: the identifier in lower snake case.
    pub name: String,
    /// What the definition of the layer holds, by its kind.
    pub definition: LayerDefinition,
}

/// [`LayerSchema`] as a mathematical value: texts as sequences of characters,
/// vectors as sequences.
pub struct LayerSchemaView {
    pub identifier: Seq<char>,
    pub name: Seq<char>,
    pub definition: LayerDefinitionView,
}

impl View for LayerSchema {
    type V = LayerSchemaView;

    open spec fn view(&self) -> LayerSchemaView {
        LayerSchemaView {
            identifier: self.identifier@,
            name: self.name@,
            definition: self.definition@,
        }
    }
}

/// The compiled shape of a layer definition, or the error of the definition:
/// that of a kind that is not known, or of a malformed colour.
pub open spec fn layer_schema_of(def: LayerDef) -> Result<LayerSchemaView, LdtkErrorView> {
    match layer_definition_of(def) {
        Ok(definition) => Ok(
            LayerSchemaView {
                identifier: def.identifier@,
                name: snake_case_of(def.identifier@),
                definition,
            },
        ),
        Err(error) => Err(error),
    }
}

/// The compiled shapes of a list of layer definitions, or the error of the
/// first that has none.
pub open spec fn layer_schemas_of(defs: Seq<LayerDef>) -> Result<
    Seq<LayerSchemaView>,
    LdtkErrorView,
> {
    gathered(Seq::new(defs.len(), |i: int| layer_schema_of(defs[i])))
}

fn define_layer(def: &LayerDef) -> (schema: LdtkResult<LayerSchema>)
    ensures
        viewed(schema) == layer_schema_of(*def),
{
    match LayerDefinition::load(def) {
        Ok(definition) => Ok(
            LayerSchema {
                identifier: def.identifier.clone(),
                name: to_snake_case(def.identifier.as_str()),
                definition,
            },
        ),
        Err(error) => Err(error),
    }
}

fn define_layers(level_layers: &[LayerDef]) -> (schemas: LdtkResult<Vec<LayerSchema>>)
    ensures
        all_viewed(schemas) == layer_schemas_of(level_layers@),
{
    let ghost steps = Seq::new(level_layers@.len(), |i: int| layer_schema_of(level_layers@[i]));
    let mut schemas: Vec<LayerSchema> = Vec::new();
    let mut i: usize = 0;
    proof {
        lemma_gathered_none(steps);
        lemma_views_none::<LayerSchema>();
    }
    while i < level_layers.len()
        invariant
            i <= level_layers.len(),
            steps == Seq::new(level_layers@.len(), |i: int| layer_schema_of(level_layers@[i])),
            gathered(steps.take(i as int)) == Ok::<Seq<LayerSchemaView>, LdtkErrorView>(
                views(schemas@),
            ),
        decreases level_layers.len() - i,
    {
        match define_layer(&level_layers[i]) {
            Ok(schema) => {
                proof {
                    lemma_gathered_next(steps, i as int, schema@);
                    lemma_views_push(schemas@, schema);
                }
                schemas.push(schema);
            },
            Err(error) => {
                proof {
                    lemma_gathered_fails_at(steps, i as int, error@);
                }
                return Err(error);
            },
        }
        i += 1;
    }
    proof {
        lemma_gathered_all(steps);
    }
    Ok(schemas)
}

/// The compiled shape of a level: its custom fields and its layers.
#[derive(Debug, PartialEq, Eq)]
pub struct LevelSchema {
    pub fields: Vec<FieldSchema>,
    pub layers: Vec<LayerSchema>,
}

/// [`LevelSchema`] as a mathematical value: texts as sequences of characters,
/// vectors as sequences.
pub struct LevelSchemaView {
    pub fields: Seq<FieldSchemaView>,
    pub layers: Seq<LayerSchemaView>,
}

impl View for LevelSchema {
    type V = LevelSchemaView;

    open spec fn view(&self) -> LevelSchemaView {
        LevelSchemaView { fields: views(self.fields@), layers: views(self.layers@) }
    }
}

/// The compiled shape of the levels of a project: the error of the first
/// field that has no shape, else that of the first layer that has none.
pub open spec fn level_schema_of(
    level_fields: Seq<FieldDef>,
    level_layers: Seq<LayerDef>,
    enum_names: Seq<Seq<char>>,
) -> Result<LevelSchemaView, LdtkErrorView> {
    match field_schemas_of(level_fields, enum_names) {
        Err(error) => Err(error),
        Ok(fields) => match layer_schemas_of(level_layers) {
            Err(error) => Err(error),
            Ok(layers) => Ok(LevelSchemaView { fields, layers }),
        },
    }
}

/// Compiles the shape of the levels of a project.
pub fn define_levels(
    level_fields: &[FieldDef],
    level_layers: &[LayerDef],
    enums: &[EnumSchema],
) -> (schema: LdtkResult<LevelSchema>)
    ensures
        viewed(schema) == level_schema_of(level_fields@, level_layers@, keys_of(enums@)),
{
    match define_fields(level_fields, enums) {
        Err(error) => Err(error),
        Ok(fields) => match define_layers(level_layers) {
            Err(error) => Err(error),
            Ok(layers) => Ok(LevelSchema { fields, layers }),
        },
    }
}

/// A tileset whose image is a sprite-sheet file.
#[derive(Debug, PartialEq, Eq)]
pub struct AsepriteTileset {
    /// The type name: the identifier of the tileset in upper camel case.
    pub name: String,
    /// The path of the file, relative to the project.
    pub rel_path: String,
}

/// [`AsepriteTileset`] as a mathematical value: texts as sequences of characters,
/// vectors as sequences.
pub struct AsepriteTilesetView {
    pub name: Seq<char>,
    pub rel_path: Seq<char>,
}

impl View for AsepriteTileset {
    type V = AsepriteTilesetView;

    open spec fn view(&self) -> AsepriteTilesetView {
        AsepriteTilesetView { name: self.name@, rel_path: self.rel_path@ }
    }
}

/// Whether a path names a sprite-sheet file: it ends in `.aseprite` or in `.ase`.
pub open spec fn is_aseprite_path(path: Seq<char>) -> bool {
    ||| occurs_at(".aseprite"@, path, path.len() - ".aseprite"@.len())
    ||| occurs_at(".ase"@, path, path.len() - ".ase"@.len())
}

/// The tilesets among `defs` whose image is a sprite-sheet file, in order.
pub open spec fn aseprite_tilesets_of(defs: Seq<TilesetDef>) -> Seq<AsepriteTilesetView>
    decreases defs.len(),
{
    if defs.len() == 0 {
        Seq::empty()
    } else {
        let before = aseprite_tilesets_of(defs.drop_last());
        match defs.last().rel_path {
            Some(path) if is_aseprite_path(path@) => before.push(
                AsepriteTilesetView {
                    name: camel_case_of(defs.last().identifier@),
                    rel_path: path@,
                },
            ),
            _ => before,
        }
    }
}

/// Lists the tilesets whose image is a sprite-sheet file.
pub fn define_aseprite_tilesets(tilesets: &[TilesetDef]) -> (listed: Vec<AsepriteTileset>)
    ensures
        views(listed@) == aseprite_tilesets_of(tilesets@),
{
    let mut listed: Vec<AsepriteTileset> = Vec::new();
    let mut i: usize = 0;
    proof {
        lemma_views_none::<AsepriteTileset>();
    }
    while i < tilesets.len()
        invariant
            i <= tilesets.len(),
            views(listed@) == aseprite_tilesets_of(tilesets@.take(i as int)),
        decreases tilesets.len() - i,
    {
        proof {
            assert(tilesets@.take(i + 1).drop_last() =~= tilesets@.take(i as int));
        }
        match &tilesets[i].rel_path {
            Some(path) => {
                if ends_with(path.as_str(), ".aseprite") || ends_with(path.as_str(), ".ase") {
                    let entry = AsepriteTileset {
                        name: to_camel_case(tilesets[i].identifier.as_str()),
                        rel_path: path.clone(),
                    };
                    proof {
                        lemma_views_push(listed@, entry);
                    }
                    listed.push(entry);
                }
            },
            None => {},
        }
        i += 1;
    }
    proof {
        assert(tilesets@.take(i as int) =~= tilesets@);
    }
    listed
}

/// Lists the tilesets of a project, in the order of their definitions.
pub fn define_tilesets(tilesets: &[TilesetDef]) -> (listed: Vec<Tileset>)
    ensures
        views(listed@) == Seq::new(tilesets@.len(), |i: int| tileset_of(tilesets@[i])),
{
    let mut listed: Vec<Tileset> = Vec::new();
    let mut i: usize = 0;
    while i < tilesets.len()
        invariant
            i <= tilesets.len(),
            listed.len() == i,
            forall|j: int| 0 <= j < i ==> listed@[j]@ == tileset_of(tilesets@[j]),
        decreases tilesets.len() - i,
    {
        listed.push(Tileset::from_def(&tilesets[i]));
        i += 1;
    }
    proof {
        assert(views(listed@) =~= Seq::new(tilesets@.len(), |i: int| tileset_of(tilesets@[i])));
    }
    listed
}

/// The compiled schema of a project.
#[derive(Debug, PartialEq, Eq)]
pub struct Schema {
    pub enums: Vec<EnumSchema>,
    pub entities: Vec<EntitySchema>,
    pub level: LevelSchema,
    /// The tilesets of the project, in the order of their definitions.
    pub tilesets: Vec<Tileset>,
    pub aseprite_tilesets: Vec<AsepriteTileset>,
}

/// [`Schema`] as a mathematical value: texts as sequences of characters,
/// vectors as sequences.
pub struct SchemaView {
    pub enums: Seq<EnumSchemaView>,
    pub entities: Seq<EntitySchemaView>,
    pub level: LevelSchemaView,
    pub tilesets: Seq<TilesetView>,
    pub aseprite_tilesets: Seq<AsepriteTilesetView>,
}

impl View for Schema {
    type V = SchemaView;

    open spec fn view(&self) -> SchemaView {
        SchemaView {
            enums: views(self.enums@),
            entities: views(self.entities@),
            level: self.level@,
            tilesets: views(self.tilesets@),
            aseprite_tilesets: views(self.aseprite_tilesets@),
        }
    }
}

/// The compiled schema of the definitions of a project: the error of the
/// first entity field that has no shape, else that of the first level field,
/// else that of the first layer.
pub open spec fn schema_of(defs: Definitions) -> Result<SchemaView, LdtkErrorView> {
    let enum_names = enum_names_of(defs.enums@);
    match entity_schemas_of(defs.entities@, enum_names) {
        Err(error) => Err(error),
        Ok(entities) => match level_schema_of(defs.level_fields@, defs.layers@, enum_names) {
            Err(error) => Err(error),
            Ok(level) => Ok(
                SchemaView {
                    enums: Seq::new(defs.enums@.len(), |i: int| enum_schema_of(defs.enums@[i])),
                    entities,
                    level,
                    tilesets: Seq::new(
                        defs.tilesets@.len(),
                        |i: int| tileset_of(defs.tilesets@[i]),
                    ),
                    aseprite_tilesets: aseprite_tilesets_of(defs.tilesets@),
                },
            ),
        },
    }
}

/// Compiles the schema of a project from its definitions.
pub fn ldtk(defs: &Definitions) -> (schema: LdtkResult<Schema>)
    ensures
        viewed(schema) == schema_of(*defs),
{
    let enums = define_enums(defs.enums.as_slice());
    match define_entities(defs.entities.as_slice(), enums.as_slice()) {
        Err(error) => Err(error),
        Ok(entities) => match define_levels(
            defs.level_fields.as_slice(),
            defs.layers.as_slice(),
            enums.as_slice(),
        ) {
            Err(error) => Err(error),
            Ok(level) => {
                let tilesets = define_tilesets(defs.tilesets.as_slice());
                let aseprite_tilesets = define_aseprite_tilesets(defs.tilesets.as_slice());
                Ok(Schema { enums, entities, level, tilesets, aseprite_tilesets })
            },
        },
    }
}

} // verus!
