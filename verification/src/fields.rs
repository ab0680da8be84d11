use crate::color::color_of_hex;
use crate::color::Rgb;
use crate::coords::IVec2;
use crate::document::EnumDef;
use crate::document::FieldData;
use crate::document::FieldInstance;
use crate::document::Member;
use crate::document::Number;
use crate::error::gathered;
use crate::error::lemma_gathered_all;
use crate::error::lemma_gathered_fails;
use crate::error::lemma_gathered_fails_at;
use crate::error::lemma_gathered_next;
use crate::error::lemma_gathered_values;
use crate::error::lemma_gathered_none;
use crate::error::lemma_views_none;
use crate::error::lemma_views_push;
use crate::error::viewed;
use crate::error::views;
use crate::error::LdtkError;
use crate::error::LdtkErrorView;
use crate::error::LdtkResult;
use crate::lookup::find_keyed;
use crate::lookup::keys_of;
use crate::lookup::lemma_position_first;
use crate::lookup::lemma_position_from;
use crate::lookup::position_of;
use crate::lookup::Keyed;
use crate::schema::enum_schema_of;
use crate::schema::EnumSchema;
use crate::schema::EnumSchemaView;
use crate::schema::EnumValueSchemaView;
use crate::schema::FieldKind;
use crate::schema::FieldKindView;
use crate::schema::FieldSchema;
use crate::schema::FieldSchemaView;
use vstd::prelude::*;
use vstd::string::StringExecFns;

verus! {

/// A single value of a custom field.
#[derive(Debug, PartialEq, Eq)]
pub enum ScalarValue {
    Int(i64),
    Float(Number),
    Text(String),
    FilePath(String),
    Bool(bool),
    Color(Rgb),
    Point(IVec2),
    /// A value of an enumeration: its position among the values of the
    /// compiled enumeration, and its variant name.
    Variant { index: usize, name: String },
}

/// [`ScalarValue`] as a mathematical value: texts as sequences of characters,
/// vectors as sequences.
pub enum ScalarValueView {
    Int(i64),
    Float(Number),
    Text(Seq<char>),
    FilePath(Seq<char>),
    Bool(bool),
    Color(Rgb),
    Point(IVec2),
    Variant { index: int, name: Seq<char> },
}

impl View for ScalarValue {
    type V = ScalarValueView;

    open spec fn view(&self) -> ScalarValueView {
        match self {
            ScalarValue::Int(value) => ScalarValueView::Int(*value),
            ScalarValue::Float(value) => ScalarValueView::Float(*value),
            ScalarValue::Text(value) => ScalarValueView::Text(value@),
            ScalarValue::FilePath(value) => ScalarValueView::FilePath(value@),
            ScalarValue::Bool(value) => ScalarValueView::Bool(*value),
            ScalarValue::Color(value) => ScalarValueView::Color(*value),
            ScalarValue::Point(value) => ScalarValueView::Point(*value),
            ScalarValue::Variant { index, name } => ScalarValueView::Variant {
                index: *index as int,
                name: name@,
            },
        }
    }
}

/// The value of a custom field: nothing, one value, or a sequence of values.
#[derive(Debug, PartialEq, Eq)]
pub enum FieldValue {
    Null,
    Single(ScalarValue),
    Many(Vec<ScalarValue>),
}

/// [`FieldValue`] as a mathematical value: texts as sequences of characters,
/// vectors as sequences.
pub enum FieldValueView {
    Null,
    Single(ScalarValueView),
    Many(Seq<ScalarValueView>),
}

impl View for FieldValue {
    type V = FieldValueView;

    open spec fn view(&self) -> FieldValueView {
        match self {
            FieldValue::Null => FieldValueView::Null,
            FieldValue::Single(value) => FieldValueView::Single(value@),
            FieldValue::Many(values) => FieldValueView::Many(views(values@)),
        }
    }
}

/// A custom field of a level or of an entity, under its member name.
#[derive(Debug, PartialEq, Eq)]
pub struct Field {
    pub name: String,
    pub value: FieldValue,
}

/// [`Field`] as a mathematical value: texts as sequences of characters,
/// vectors as sequences.
pub struct FieldView {
    pub name: Seq<char>,
    pub value: FieldValueView,
}

impl View for Field {
    type V = FieldView;

    open spec fn view(&self) -> FieldView {
        FieldView { name: self.name@, value: self.value@ }
    }
}

/// What owns a record of custom fields.
#[derive(Clone, Copy, Debug, PartialEq, Eq, Structural)]
pub enum OwnerKind {
    Level,
    Entity,
}

impl Keyed for Member {
    open spec fn key(&self) -> Seq<char> {
        self.key@
    }

    fn key_text(&self) -> (text: &str) {
        self.key.as_str()
    }
}

impl Keyed for FieldInstance {
    open spec fn key(&self) -> Seq<char> {
        self.identifier@
    }

    fn key_text(&self) -> (text: &str) {
        self.identifier.as_str()
    }
}

/// The names of a sequence of compiled enumerations.
pub open spec fn enum_names(enums: Seq<EnumSchemaView>) -> Seq<Seq<char>> {
    Seq::new(enums.len(), |i: int| enums[i].name)
}

/// The integer that the first member of `members` under `key` holds, if it holds one.
pub open spec fn integer_member(members: Seq<Member>, key: Seq<char>) -> Option<i64> {
    match position_of(keys_of(members), key) {
        Some(at) => match members[at].value {
            FieldData::Number(Number::Integer(value)) => Some(value),
            _ => None,
        },
        None => None,
    }
}

/// The error for a value that is not of the kind that its field declares.
pub open spec fn mismatch(owner: Seq<char>, field: Seq<char>) -> LdtkErrorView {
    LdtkErrorView::MismatchedFieldValue { owner, field }
}

/// The error for a field without a value that may not be null.
pub open spec fn missing(kind: OwnerKind, owner: Seq<char>, field: Seq<char>) -> LdtkErrorView {
    match kind {
        OwnerKind::Level => LdtkErrorView::MissingFieldsForLevels { level: owner, field },
        OwnerKind::Entity => LdtkErrorView::MissingFieldsForEntities { entity: owner, field },
    }
}

/// The declared identifiers of a sequence of enumeration values.
pub open spec fn value_identifiers(values: Seq<EnumValueSchemaView>) -> Seq<Seq<char>> {
    Seq::new(values.len(), |i: int| values[i].identifier)
}

/// The value of the enumeration named `name` that the text `text` stands
/// for: the first value of the first compiled enumeration of that name whose
/// declared identifier is exactly the text. A text that is no declared
/// identifier gives an error, never a value.
pub open spec fn variant_of(name: Seq<char>, text: Seq<char>, enums: Seq<EnumSchemaView>) -> Result<
    ScalarValueView,
    LdtkErrorView,
> {
    let unmatched = LdtkErrorView::UnmatchedEnumValue { enumeration: name, value: text };
    match position_of(enum_names(enums), name) {
        Some(at) => match position_of(value_identifiers(enums[at].values), text) {
            Some(index) => Ok(
                ScalarValueView::Variant { index, name: enums[at].values[index].name },
            ),
            None => Err(unmatched),
        },
        None => Err(unmatched),
    }
}

/// The single value of kind `kind` that `data` holds. `owner` and `field`
/// name the field in the error for data of another kind.
pub open spec fn scalar_of(
    kind: FieldKindView,
    data: FieldData,
    enums: Seq<EnumSchemaView>,
    owner: Seq<char>,
    field: Seq<char>,
) -> Result<ScalarValueView, LdtkErrorView> {
    match (kind, data) {
        (FieldKindView::Int, FieldData::Number(Number::Integer(value))) => Ok(
            ScalarValueView::Int(value),
        ),
        (FieldKindView::Float, FieldData::Number(value)) => Ok(ScalarValueView::Float(value)),
        (FieldKindView::Text, FieldData::Text(value)) => Ok(ScalarValueView::Text(value@)),
        (FieldKindView::FilePath, FieldData::Text(value)) => Ok(ScalarValueView::FilePath(value@)),
        (FieldKindView::Bool, FieldData::Bool(value)) => Ok(ScalarValueView::Bool(value)),
        (FieldKindView::Color, FieldData::Text(value)) => match color_of_hex(value@) {
            Some(color) => Ok(ScalarValueView::Color(color)),
            None => Err(LdtkErrorView::MalformedColor { text: value@ }),
        },
        (FieldKindView::Point, FieldData::Object(members)) => match (
            integer_member(members@, "cx"@),
            integer_member(members@, "cy"@),
        ) {
            (Some(x), Some(y)) => Ok(ScalarValueView::Point(IVec2 { x, y })),
            _ => Err(mismatch(owner, field)),
        },
        (FieldKindView::LocalEnum { name }, FieldData::Text(value)) => variant_of(
            name,
            value@,
            enums,
        ),
        _ => Err(mismatch(owner, field)),
    }
}

/// The value of a field of shape `schema` that `data` holds; `Null` stands
/// for no value. A field without a value is null where it can be, and an
/// error where it cannot.
pub open spec fn field_value_of(
    schema: FieldSchemaView,
    data: FieldData,
    enums: Seq<EnumSchemaView>,
    owner_kind: OwnerKind,
    owner: Seq<char>,
) -> Result<FieldValueView, LdtkErrorView> {
    match data {
        FieldData::Null => if schema.can_be_null {
            Ok(FieldValueView::Null)
        } else {
            Err(missing(owner_kind, owner, schema.identifier))
        },
        FieldData::List(items) if schema.is_array => match gathered(
            Seq::new(
                items@.len(),
                |i: int| scalar_of(schema.kind, items@[i], enums, owner, schema.identifier),
            ),
        ) {
            Ok(values) => Ok(FieldValueView::Many(values)),
            Err(error) => Err(error),
        },
        _ => if schema.is_array {
            Err(mismatch(owner, schema.identifier))
        } else {
            match scalar_of(schema.kind, data, enums, owner, schema.identifier) {
                Ok(value) => Ok(FieldValueView::Single(value)),
                Err(error) => Err(error),
            }
        },
    }
}

/// The data that the first instance under `identifier` holds; `Null` where
/// there is no such instance.
pub open spec fn data_of(instances: Seq<FieldInstance>, identifier: Seq<char>) -> FieldData {
    match position_of(keys_of(instances), identifier) {
        Some(at) => instances[at].value,
        None => FieldData::Null,
    }
}

/// The field of shape `schema` among `instances`.
pub open spec fn field_of(
    schema: FieldSchemaView,
    instances: Seq<FieldInstance>,
    enums: Seq<EnumSchemaView>,
    owner_kind: OwnerKind,
    owner: Seq<char>,
) -> Result<FieldView, LdtkErrorView> {
    match field_value_of(schema, data_of(instances, schema.identifier), enums, owner_kind, owner) {
        Ok(value) => Ok(FieldView { name: schema.name, value }),
        Err(error) => Err(error),
    }
}

/// The record of the fields of shapes `schemas` among `instances`: one field
/// for each shape, in the order of the shapes, or the error of the first
/// shape whose field cannot be had.
pub open spec fn fields_of(
    schemas: Seq<FieldSchemaView>,
    instances: Seq<FieldInstance>,
    enums: Seq<EnumSchemaView>,
    owner_kind: OwnerKind,
    owner: Seq<char>,
) -> Result<Seq<FieldView>, LdtkErrorView> {
    gathered(
        Seq::new(schemas.len(), |i: int| field_of(schemas[i], instances, enums, owner_kind, owner)),
    )
}

fn mismatch_error(owner: &str, field: &str) -> (error: LdtkError)
    ensures
        error@ == mismatch(owner@, field@),
{
    LdtkError::MismatchedFieldValue {
        owner: String::from_str(owner),
        field: String::from_str(field),
    }
}

fn missing_error(kind: OwnerKind, owner: &str, field: &str) -> (error: LdtkError)
    ensures
        error@ == missing(kind, owner@, field@),
{
    match kind {
        OwnerKind::Level => LdtkError::MissingFieldsForLevels {
            level: String::from_str(owner),
            field: String::from_str(field),
        },
        OwnerKind::Entity => LdtkError::MissingFieldsForEntities {
            entity: String::from_str(owner),
            field: String::from_str(field),
        },
    }
}

fn read_integer_member(members: &Vec<Member>, key: &str) -> (value: Option<i64>)
    ensures
        value == integer_member(members@, key@),
{
    match find_keyed(members.as_slice(), key) {
        Some(at) => match &members[at].value {
            FieldData::Number(Number::Integer(value)) => Some(*value),
            _ => None,
        },
        None => None,
    }
}

/// The names of the compiled enumerations are the keys by which they are found.
pub proof fn lemma_enum_names(enums: Seq<EnumSchema>)
    ensures
        enum_names(views(enums)) == keys_of(enums),
{
    assert(enum_names(views(enums)) =~= keys_of(enums));
}

/// Reads the declared identifier of a value of the enumeration named `name`.
pub fn parse_variant(name: &str, text: &str, enums: &[EnumSchema]) -> (value: LdtkResult<
    ScalarValue,
>)
    ensures
        viewed(value) == variant_of(name@, text@, views(enums@)),
{
    proof {
        lemma_enum_names(enums@);
    }
    match find_keyed(enums, name) {
        Some(at) => {
            proof {
                assert(value_identifiers(views(enums@)[at as int].values) =~= keys_of(
                    enums@[at as int].values@,
                ));
            }
            match find_keyed(enums[at].values.as_slice(), text) {
                Some(index) => Ok(
                    ScalarValue::Variant { index, name: enums[at].values[index].name.clone() },
                ),
                None => Err(
                    LdtkError::UnmatchedEnumValue {
                        enumeration: String::from_str(name),
                        value: String::from_str(text),
                    },
                ),
            }
        },
        None => Err(
            LdtkError::UnmatchedEnumValue {
                enumeration: String::from_str(name),
                value: String::from_str(text),
            },
        ),
    }
}

/// Decodes a single value of the kind `kind`; `owner` and `field` name the
/// field in the error for data of another kind.
pub fn parse_scalar(
    kind: &FieldKind,
    data: &FieldData,
    enums: &[EnumSchema],
    owner: &str,
    field: &str,
) -> (value: LdtkResult<ScalarValue>)
    ensures
        viewed(value) == scalar_of(kind@, *data, views(enums@), owner@, field@),
{
    match (kind, data) {
        (FieldKind::Int, FieldData::Number(Number::Integer(value))) => Ok(ScalarValue::Int(*value)),
        (FieldKind::Float, FieldData::Number(value)) => Ok(ScalarValue::Float(*value)),
        (FieldKind::Text, FieldData::Text(value)) => Ok(ScalarValue::Text(value.clone())),
        (FieldKind::FilePath, FieldData::Text(value)) => Ok(ScalarValue::FilePath(value.clone())),
        (FieldKind::Bool, FieldData::Bool(value)) => Ok(ScalarValue::Bool(*value)),
        (FieldKind::Color, FieldData::Text(value)) => match Rgb::parse_hex(value.as_str()) {
            Some(color) => Ok(ScalarValue::Color(color)),
            None => Err(LdtkError::MalformedColor { text: value.clone() }),
        },
        (FieldKind::Point, FieldData::Object(members)) => {
            match (read_integer_member(members, "cx"), read_integer_member(members, "cy")) {
                (Some(x), Some(y)) => Ok(ScalarValue::Point(IVec2 { x, y })),
                _ => Err(mismatch_error(owner, field)),
            }
        },
        (FieldKind::LocalEnum { name }, FieldData::Text(value)) => parse_variant(
            name.as_str(),
            value.as_str(),
            enums,
        ),
        _ => Err(mismatch_error(owner, field)),
    }
}

/// Decodes the value of one field from the data that the document holds for it.
#[verifier::loop_isolation(false)]
pub fn parse_field(
    schema: &FieldSchema,
    field: &FieldData,
    enums: &[EnumSchema],
    owner_kind: OwnerKind,
    owner: &str,
) -> (value: LdtkResult<FieldValue>)
    ensures
        viewed(value) == field_value_of(schema@, *field, views(enums@), owner_kind, owner@),
{
    match field {
        FieldData::Null => {
            if schema.can_be_null {
                Ok(FieldValue::Null)
            } else {
                Err(missing_error(owner_kind, owner, schema.identifier.as_str()))
            }
        },
        FieldData::List(items) => {
            if !schema.is_array {
                return match parse_scalar(
                    &schema.kind,
                    field,
                    enums,
                    owner,
                    schema.identifier.as_str(),
                ) {
                    Ok(value) => Ok(FieldValue::Single(value)),
                    Err(error) => Err(error),
                };
            }
            let ghost steps = Seq::new(
                items@.len(),
                |i: int|
                    scalar_of(schema@.kind, items@[i], views(enums@), owner@, schema@.identifier),
            );
            let mut values: Vec<ScalarValue> = Vec::new();
            let mut i: usize = 0;
            proof {
                lemma_gathered_none(steps);
                lemma_views_none::<ScalarValue>();
            }
            while i < items.len()
                invariant
                    i <= items.len(),
                    steps == Seq::new(
                        items@.len(),
                        |i: int|
                            scalar_of(
                                schema@.kind,
                                items@[i],
                                views(enums@),
                                owner@,
                                schema@.identifier,
                            ),
                    ),
                    gathered(steps.take(i as int)) == Ok::<Seq<ScalarValueView>, LdtkErrorView>(
                        views(values@),
                    ),
                decreases items.len() - i,
            {
                match parse_scalar(
                    &schema.kind,
                    &items[i],
                    enums,
                    owner,
                    schema.identifier.as_str(),
                ) {
                    Ok(value) => {
                        proof {
                            lemma_gathered_next(steps, i as int, value@);
                            lemma_views_push(values@, value);
                        }
                        values.push(value);
                    },
                    Err(error) => {
                        proof {
                            lemma_gathered_fails_at(steps, i as int, error@);
                        }
                        return Err(error);
                    },
                }
                i += 1;
            }
            proof {
                lemma_gathered_all(steps);
            }
            Ok(FieldValue::Many(values))
        },
        _ => {
            if schema.is_array {
                Err(mismatch_error(owner, schema.identifier.as_str()))
            } else {
                match parse_scalar(&schema.kind, field, enums, owner, schema.identifier.as_str()) {
                    Ok(value) => Ok(FieldValue::Single(value)),
                    Err(error) => Err(error),
                }
            }
        },
    }
}

/// The record of the custom fields of a level or of an entity: one member for
/// each compiled shape, in the order of the shapes.
#[derive(Debug, PartialEq, Eq)]
pub struct Fields {
    pub members: Vec<Field>,
}

/// [`Fields`] as a mathematical value: texts as sequences of characters,
/// vectors as sequences.
pub struct FieldsView {
    pub members: Seq<FieldView>,
}

impl View for Fields {
    type V = FieldsView;

    open spec fn view(&self) -> FieldsView {
        FieldsView { members: views(self.members@) }
    }
}

/// A record of custom fields that can be decoded from field instances.
pub trait DeserializeLdtkFields: Sized + View {
    /// The record that the instances stand for under the compiled shapes, or
    /// the error that decoding them gives.
    spec fn decoded(
        instances: Seq<FieldInstance>,
        schemas: Seq<FieldSchemaView>,
        enums: Seq<EnumSchemaView>,
        owner_kind: OwnerKind,
        owner: Seq<char>,
    ) -> Result<Self::V, LdtkErrorView>;

    /// Decodes the custom fields of the level or the entity named `owner`.
    fn deserialize_ldtk(
        instances: &[FieldInstance],
        schemas: &[FieldSchema],
        enums: &[EnumSchema],
        owner_kind: OwnerKind,
        owner: &str,
    ) -> (fields: LdtkResult<Self>)
        ensures
            viewed(fields) == Self::decoded(
                instances@,
                views(schemas@),
                views(enums@),
                owner_kind,
                owner@,
            ),
    ;
}

impl DeserializeLdtkFields for Fields {
    open spec fn decoded(
        instances: Seq<FieldInstance>,
        schemas: Seq<FieldSchemaView>,
        enums: Seq<EnumSchemaView>,
        owner_kind: OwnerKind,
        owner: Seq<char>,
    ) -> Result<FieldsView, LdtkErrorView> {
        match fields_of(schemas, instances, enums, owner_kind, owner) {
            Ok(members) => Ok(FieldsView { members }),
            Err(error) => Err(error),
        }
    }

    fn deserialize_ldtk(
        instances: &[FieldInstance],
        schemas: &[FieldSchema],
        enums: &[EnumSchema],
        owner_kind: OwnerKind,
        owner: &str,
    ) -> (fields: LdtkResult<Fields>) {
        let ghost steps = Seq::new(
            views(schemas@).len(),
            |i: int| field_of(views(schemas@)[i], instances@, views(enums@), owner_kind, owner@),
        );
        let absent = FieldData::Null;
        let mut members: Vec<Field> = Vec::new();
        let mut i: usize = 0;
        proof {
            lemma_gathered_none(steps);
            lemma_views_none::<Field>();
        }
        while i < schemas.len()
            invariant
                i <= schemas.len(),
                absent == FieldData::Null,
                steps == Seq::new(
                    views(schemas@).len(),
                    |i: int|
                        field_of(views(schemas@)[i], instances@, views(enums@), owner_kind, owner@),
                ),
                gathered(steps.take(i as int)) == Ok::<Seq<FieldView>, LdtkErrorView>(
                    views(members@),
                ),
            decreases schemas.len() - i,
        {
            let schema = &schemas[i];
            let data = match find_keyed(instances, schema.identifier.as_str()) {
                Some(at) => &instances[at].value,
                None => &absent,
            };
            match parse_field(schema, data, enums, owner_kind, owner) {
                Ok(value) => {
                    let field = Field { name: schema.name.clone(), value };
                    proof {
                        lemma_gathered_next(steps, i as int, field@);
                        lemma_views_push(members@, field);
                    }
                    members.push(field);
                },
                Err(error) => {
                    proof {
                        lemma_gathered_fails_at(steps, i as int, error@);
                    }
                    return Err(error);
                },
            }
            i += 1;
        }
        proof {
            lemma_gathered_all(steps);
        }
        Ok(Fields { members })
    }
}

/// A declared value decodes from its own identifier: in the first compiled
/// enumeration of its name, the identifier of a value that no earlier value
/// shares gives exactly that value.
pub proof fn lemma_declared_value_decodes(enums: Seq<EnumSchemaView>, at: int, index: int)
    requires
        0 <= at < enums.len(),
        forall|j: int| 0 <= j < at ==> enums[j].name != enums[at].name,
        0 <= index < enums[at].values.len(),
        forall|j: int|
            0 <= j < index ==> enums[at].values[j].identifier != enums[at].values[index].identifier,
    ensures
        variant_of(enums[at].name, enums[at].values[index].identifier, enums) == Ok::<
            ScalarValueView,
            LdtkErrorView,
        >(ScalarValueView::Variant { index, name: enums[at].values[index].name }),
{
    lemma_position_first(enum_names(enums), enums[at].name, at);
    lemma_position_first(
        value_identifiers(enums[at].values),
        enums[at].values[index].identifier,
        index,
    );
}

/// The values that an enumeration definition declares decode from their own
/// identifiers, in the order of the declaration: the identifier of the value
/// at `index`, where no earlier value has the same one, gives variant `index`.
pub proof fn lemma_definition_decodes_its_values(def: EnumDef, index: int)
    requires
        0 <= index < def.values@.len(),
        forall|j: int| 0 <= j < index ==> def.values@[j]@ != def.values@[index]@,
    ensures
        variant_of(
            enum_schema_of(def).name,
            def.values@[index]@,
            seq![enum_schema_of(def)],
        ) == Ok::<ScalarValueView, LdtkErrorView>(
            ScalarValueView::Variant { index, name: enum_schema_of(def).values[index].name },
        ),
{
    lemma_declared_value_decodes(seq![enum_schema_of(def)], 0, index);
}

/// A text decodes to a value only if it is the declared identifier of that
/// value, letter for letter.
pub proof fn lemma_variant_stands_for_its_text(
    name: Seq<char>,
    text: Seq<char>,
    enums: Seq<EnumSchemaView>,
)
    requires
        variant_of(name, text, enums) is Ok,
    ensures
        position_of(enum_names(enums), name) is Some,
        variant_of(name, text, enums)->Ok_0 is Variant,
        ({
            let at = position_of(enum_names(enums), name)->0;
            let index = variant_of(name, text, enums)->Ok_0->Variant_index;
            &&& 0 <= at < enums.len()
            &&& enums[at].name == name
            &&& 0 <= index < enums[at].values.len()
            &&& enums[at].values[index].identifier == text
        }),
{
    lemma_position_from(enum_names(enums), name, 0);
    let at = position_of(enum_names(enums), name)->0;
    lemma_position_from(value_identifiers(enums[at].values), text, 0);
}

/// Whether a single value is of the kind `kind`.
pub open spec fn scalar_fits(kind: FieldKindView, value: ScalarValueView) -> bool {
    match (kind, value) {
        (FieldKindView::Int, ScalarValueView::Int(_)) => true,
        (FieldKindView::Float, ScalarValueView::Float(_)) => true,
        (FieldKindView::Text, ScalarValueView::Text(_)) => true,
        (FieldKindView::FilePath, ScalarValueView::FilePath(_)) => true,
        (FieldKindView::Bool, ScalarValueView::Bool(_)) => true,
        (FieldKindView::Color, ScalarValueView::Color(_)) => true,
        (FieldKindView::Point, ScalarValueView::Point(_)) => true,
        (FieldKindView::LocalEnum { .. }, ScalarValueView::Variant { .. }) => true,
        _ => false,
    }
}

/// Whether the value of a field has the shape that `schema` declares: null
/// only where the field can be null, a sequence exactly where the field is an
/// array, and every single value of the declared kind.
pub open spec fn value_fits(schema: FieldSchemaView, value: FieldValueView) -> bool {
    match value {
        FieldValueView::Null => schema.can_be_null,
        FieldValueView::Single(value) => !schema.is_array && scalar_fits(schema.kind, value),
        FieldValueView::Many(values) => schema.is_array && forall|i: int|
            0 <= i < values.len() ==> scalar_fits(schema.kind, #[trigger] values[i]),
    }
}

/// A value that was decoded has the shape that its field declares.
pub proof fn lemma_decoded_value_fits(
    schema: FieldSchemaView,
    data: FieldData,
    enums: Seq<EnumSchemaView>,
    owner_kind: OwnerKind,
    owner: Seq<char>,
)
    requires
        field_value_of(schema, data, enums, owner_kind, owner) is Ok,
    ensures
        value_fits(schema, field_value_of(schema, data, enums, owner_kind, owner)->Ok_0),
{
    match data {
        FieldData::List(items) => {
            if schema.is_array {
                let steps = Seq::new(
                    items@.len(),
                    |i: int| scalar_of(schema.kind, items@[i], enums, owner, schema.identifier),
                );
                lemma_gathered_values(steps);
                let values = gathered(steps)->Ok_0;
                assert forall|i: int| 0 <= i < values.len() implies scalar_fits(
                    schema.kind,
                    #[trigger] values[i],
                ) by {
                    assert(steps[i] == Ok::<ScalarValueView, LdtkErrorView>(values[i]));
                }
            }
        },
        _ => {},
    }
}

/// A field that cannot be null and has no value in the document makes the
/// whole record fail: no value is made up for it.
pub proof fn lemma_missing_field_rejected(
    schemas: Seq<FieldSchemaView>,
    instances: Seq<FieldInstance>,
    enums: Seq<EnumSchemaView>,
    owner_kind: OwnerKind,
    owner: Seq<char>,
    at: int,
)
    requires
        0 <= at < schemas.len(),
        !schemas[at].can_be_null,
        data_of(instances, schemas[at].identifier) is Null,
    ensures
        field_of(schemas[at], instances, enums, owner_kind, owner) == Err::<
            FieldView,
            LdtkErrorView,
        >(missing(owner_kind, owner, schemas[at].identifier)),
        fields_of(schemas, instances, enums, owner_kind, owner) is Err,
{
    let steps = Seq::new(
        schemas.len(),
        |i: int| field_of(schemas[i], instances, enums, owner_kind, owner),
    );
    assert(steps[at] is Err);
    lemma_gathered_fails(steps);
}

} // verus!
