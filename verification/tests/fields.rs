use bevy_spicy_ldtk::document::EnumDef;
use bevy_spicy_ldtk::document::FieldData;
use bevy_spicy_ldtk::document::FieldDef;
use bevy_spicy_ldtk::document::FieldInstance;
use bevy_spicy_ldtk::document::Float64;
use bevy_spicy_ldtk::document::Member;
use bevy_spicy_ldtk::document::Number;
use bevy_spicy_ldtk::error::LdtkError;
use bevy_spicy_ldtk::fields::parse_scalar;
use bevy_spicy_ldtk::fields::parse_variant;
use bevy_spicy_ldtk::fields::FieldValue;
use bevy_spicy_ldtk::fields::Fields;
use bevy_spicy_ldtk::fields::OwnerKind;
use bevy_spicy_ldtk::fields::ScalarValue;
use bevy_spicy_ldtk::parse_field;
use bevy_spicy_ldtk::schema::define_enums;
use bevy_spicy_ldtk::schema::define_fields;
use bevy_spicy_ldtk::schema::EnumSchema;
use bevy_spicy_ldtk::schema::FieldKind;
use bevy_spicy_ldtk::schema::FieldSchema;
use bevy_spicy_ldtk::DeserializeLdtkFields;
use bevy_spicy_ldtk::IVec2;
use bevy_spicy_ldtk::Rgb;

fn fields_enums() -> Vec<EnumSchema> {
    define_enums(&[
        EnumDef {
            identifier: "item_kind".to_string(),
            values: vec!["Potion".to_string(), "big_key".to_string()],
        },
        EnumDef { identifier: "Mood".to_string(), values: vec!["Calm".to_string()] },
    ])
}

fn fields_shape(identifier: &str, kind: &str, can_be_null: bool) -> FieldSchema {
    let def = FieldDef { identifier: identifier.to_string(), kind: kind.to_string(), can_be_null };
    define_fields(&[def], &fields_enums()).unwrap().remove(0)
}

fn fields_parse(kind: &str, can_be_null: bool, data: FieldData) -> Result<FieldValue, LdtkError> {
    parse_field(
        &fields_shape("value", kind, can_be_null),
        &data,
        &fields_enums(),
        OwnerKind::Entity,
        "Chest",
    )
}

fn fields_int(value: i64) -> FieldData {
    FieldData::Number(Number::Integer(value))
}

fn fields_text(value: &str) -> FieldData {
    FieldData::Text(value.to_string())
}

fn fields_point(cx: FieldData, cy: FieldData) -> FieldData {
    FieldData::Object(vec![
        Member { key: "cx".to_string(), value: cx },
        Member { key: "cy".to_string(), value: cy },
    ])
}

fn fields_mismatch() -> LdtkError {
    LdtkError::MismatchedFieldValue { owner: "Chest".to_string(), field: "value".to_string() }
}

fn fields_instance(identifier: &str, value: FieldData) -> FieldInstance {
    FieldInstance { identifier: identifier.to_string(), value }
}

#[test]
fn every_kind_reads_its_own_data() {
    assert_eq!(
        fields_parse("Int", false, fields_int(-7)),
        Ok(FieldValue::Single(ScalarValue::Int(-7)))
    );
    let half = Number::Real(Float64 { bits: 0.5f64.to_bits() });
    assert_eq!(
        fields_parse("Float", false, FieldData::Number(half)),
        Ok(FieldValue::Single(ScalarValue::Float(half)))
    );
    assert_eq!(
        fields_parse("Float", false, fields_int(3)),
        Ok(FieldValue::Single(ScalarValue::Float(Number::Integer(3))))
    );
    assert_eq!(
        fields_parse("String", false, fields_text("hello")),
        Ok(FieldValue::Single(ScalarValue::Text("hello".to_string())))
    );
    assert_eq!(
        fields_parse("FilePath", false, fields_text("music/theme.ogg")),
        Ok(FieldValue::Single(ScalarValue::FilePath("music/theme.ogg".to_string())))
    );
    assert_eq!(
        fields_parse("Bool", false, FieldData::Bool(true)),
        Ok(FieldValue::Single(ScalarValue::Bool(true)))
    );
    assert_eq!(
        fields_parse("Color", false, fields_text("#ff8000")),
        Ok(FieldValue::Single(ScalarValue::Color(Rgb { r: 255, g: 128, b: 0 })))
    );
    assert_eq!(
        fields_parse("Point", false, fields_point(fields_int(3), fields_int(-4))),
        Ok(FieldValue::Single(ScalarValue::Point(IVec2 { x: 3, y: -4 })))
    );
    assert_eq!(
        fields_parse("LocalEnum.item_kind", false, fields_text("big_key")),
        Ok(FieldValue::Single(ScalarValue::Variant { index: 1, name: "BigKey".to_string() }))
    );
}

#[test]
fn data_of_another_kind_is_rejected() {
    assert_eq!(fields_parse("Int", false, fields_text("7")), Err(fields_mismatch()));
    assert_eq!(
        fields_parse("Int", false, FieldData::Number(Number::Real(Float64 { bits: 0 }))),
        Err(fields_mismatch())
    );
    assert_eq!(fields_parse("Float", false, FieldData::Bool(true)), Err(fields_mismatch()));
    assert_eq!(fields_parse("String", false, fields_int(1)), Err(fields_mismatch()));
    assert_eq!(fields_parse("FilePath", false, FieldData::Bool(false)), Err(fields_mismatch()));
    assert_eq!(fields_parse("Bool", false, fields_int(1)), Err(fields_mismatch()));
    assert_eq!(fields_parse("Color", false, fields_int(255)), Err(fields_mismatch()));
    assert_eq!(fields_parse("Point", false, fields_text("1,2")), Err(fields_mismatch()));
    assert_eq!(
        fields_parse("LocalEnum.item_kind", false, fields_int(0)),
        Err(fields_mismatch())
    );
    assert_eq!(
        fields_parse("Int", false, FieldData::List(vec![fields_int(1)])),
        Err(fields_mismatch())
    );
    assert_eq!(fields_parse("Array<Int>", false, fields_int(1)), Err(fields_mismatch()));
}

#[test]
fn a_point_needs_both_integer_coordinates() {
    assert_eq!(
        fields_parse(
            "Point",
            false,
            FieldData::Object(vec![Member { key: "cx".to_string(), value: fields_int(1) }])
        ),
        Err(fields_mismatch())
    );
    assert_eq!(
        fields_parse("Point", false, fields_point(fields_int(1), fields_text("2"))),
        Err(fields_mismatch())
    );
    assert_eq!(
        fields_parse(
            "Point",
            false,
            FieldData::Object(vec![
                Member { key: "cy".to_string(), value: fields_int(9) },
                Member { key: "other".to_string(), value: FieldData::Null },
                Member { key: "cx".to_string(), value: fields_int(8) },
                Member { key: "cx".to_string(), value: fields_int(0) },
            ])
        ),
        Ok(FieldValue::Single(ScalarValue::Point(IVec2 { x: 8, y: 9 })))
    );
}

#[test]
fn a_malformed_color_value_is_rejected() {
    assert_eq!(
        fields_parse("Color", false, fields_text("orange")),
        Err(LdtkError::MalformedColor { text: "orange".to_string() })
    );
}

#[test]
fn an_unmatched_enum_value_is_rejected() {
    assert_eq!(
        fields_parse("LocalEnum.item_kind", false, fields_text("Sword")),
        Err(LdtkError::UnmatchedEnumValue {
            enumeration: "ItemKind".to_string(),
            value: "Sword".to_string(),
        })
    );
    assert_eq!(
        fields_parse("LocalEnum.item_kind", false, fields_text("BigKey")),
        Err(LdtkError::UnmatchedEnumValue {
            enumeration: "ItemKind".to_string(),
            value: "BigKey".to_string(),
        })
    );
    assert_eq!(
        fields_parse("LocalEnum.item_kind", false, fields_text("Big_Key")),
        Err(LdtkError::UnmatchedEnumValue {
            enumeration: "ItemKind".to_string(),
            value: "Big_Key".to_string(),
        })
    );
    assert_eq!(
        fields_parse("LocalEnum.item_kind", false, fields_text("Calm")),
        Err(LdtkError::UnmatchedEnumValue {
            enumeration: "ItemKind".to_string(),
            value: "Calm".to_string(),
        })
    );
    assert_eq!(
        fields_parse("LocalEnum.Mood", false, fields_text("Calm")),
        Ok(FieldValue::Single(ScalarValue::Variant { index: 0, name: "Calm".to_string() }))
    );
}

#[test]
fn an_enum_that_the_schema_lacks_matches_nothing() {
    let shape = fields_shape("value", "LocalEnum.Mood", false);
    assert_eq!(
        parse_field(&shape, &fields_text("Calm"), &[], OwnerKind::Level, "Level_0"),
        Err(LdtkError::UnmatchedEnumValue {
            enumeration: "Mood".to_string(),
            value: "Calm".to_string(),
        })
    );
}

#[test]
fn a_missing_value_is_null_only_where_it_can_be() {
    assert_eq!(fields_parse("Int", true, FieldData::Null), Ok(FieldValue::Null));
    assert_eq!(fields_parse("Array<Int>", true, FieldData::Null), Ok(FieldValue::Null));
    assert_eq!(
        fields_parse("Int", false, FieldData::Null),
        Err(LdtkError::MissingFieldsForEntities {
            entity: "Chest".to_string(),
            field: "value".to_string(),
        })
    );
    assert_eq!(
        parse_field(
            &fields_shape("value", "Array<Int>", false),
            &FieldData::Null,
            &[],
            OwnerKind::Level,
            "Level_0"
        ),
        Err(LdtkError::MissingFieldsForLevels {
            level: "Level_0".to_string(),
            field: "value".to_string(),
        })
    );
}

#[test]
fn a_value_that_is_there_is_decoded_where_null_is_allowed() {
    assert_eq!(
        fields_parse("Int", true, fields_int(5)),
        Ok(FieldValue::Single(ScalarValue::Int(5)))
    );
    assert_eq!(fields_parse("Int", true, fields_text("5")), Err(fields_mismatch()));
}

#[test]
fn an_array_reads_every_item() {
    assert_eq!(
        fields_parse(
            "Array<Int>",
            false,
            FieldData::List(vec![fields_int(1), fields_int(2), fields_int(3)])
        ),
        Ok(FieldValue::Many(vec![
            ScalarValue::Int(1),
            ScalarValue::Int(2),
            ScalarValue::Int(3)
        ]))
    );
    assert_eq!(
        fields_parse("Array<String>", true, FieldData::List(Vec::new())),
        Ok(FieldValue::Many(Vec::new()))
    );
    assert_eq!(
        fields_parse(
            "Array<Point>",
            false,
            FieldData::List(vec![fields_point(fields_int(0), fields_int(1))])
        ),
        Ok(FieldValue::Many(vec![ScalarValue::Point(IVec2 { x: 0, y: 1 })]))
    );
}

#[test]
fn the_first_bad_item_of_an_array_gives_the_error() {
    assert_eq!(
        fields_parse(
            "Array<Color>",
            false,
            FieldData::List(vec![
                fields_text("#000000"),
                fields_text("nope"),
                fields_int(3),
            ])
        ),
        Err(LdtkError::MalformedColor { text: "nope".to_string() })
    );
    assert_eq!(
        fields_parse(
            "Array<Int>",
            true,
            FieldData::List(vec![fields_int(1), FieldData::Null])
        ),
        Err(fields_mismatch())
    );
    assert_eq!(
        fields_parse(
            "Array<Int>",
            false,
            FieldData::List(vec![FieldData::List(vec![fields_int(1)])])
        ),
        Err(fields_mismatch())
    );
}

#[test]
fn a_record_has_one_member_for_each_shape() {
    let enums = fields_enums();
    let shapes = define_fields(
        &[
            FieldDef {
                identifier: "MaxHealth".to_string(),
                kind: "Int".to_string(),
                can_be_null: false,
            },
            FieldDef {
                identifier: "Nick".to_string(),
                kind: "String".to_string(),
                can_be_null: true,
            },
            FieldDef {
                identifier: "Loot".to_string(),
                kind: "Array<LocalEnum.item_kind>".to_string(),
                can_be_null: false,
            },
        ],
        &enums,
    )
    .unwrap();
    let instances = [
        fields_instance("Loot", FieldData::List(vec![fields_text("Potion")])),
        fields_instance("Unrelated", fields_int(0)),
        fields_instance("MaxHealth", fields_int(20)),
        fields_instance("MaxHealth", fields_int(99)),
    ];
    let record =
        Fields::deserialize_ldtk(&instances, &shapes, &enums, OwnerKind::Entity, "Hero").unwrap();
    assert_eq!(record.members.len(), 3);
    assert_eq!(record.members[0].name, "max_health");
    assert_eq!(record.members[0].value, FieldValue::Single(ScalarValue::Int(20)));
    assert_eq!(record.members[1].name, "nick");
    assert_eq!(record.members[1].value, FieldValue::Null);
    assert_eq!(record.members[2].name, "loot");
    assert_eq!(
        record.members[2].value,
        FieldValue::Many(vec![ScalarValue::Variant { index: 0, name: "Potion".to_string() }])
    );
}

#[test]
fn a_required_field_without_an_instance_fails_the_record() {
    let shapes = [fields_shape("MaxHealth", "Int", false)];
    assert_eq!(
        Fields::deserialize_ldtk(&[], &shapes, &[], OwnerKind::Entity, "Hero"),
        Err(LdtkError::MissingFieldsForEntities {
            entity: "Hero".to_string(),
            field: "MaxHealth".to_string(),
        })
    );
    assert_eq!(
        Fields::deserialize_ldtk(
            &[fields_instance("MaxHealth", FieldData::Null)],
            &shapes,
            &[],
            OwnerKind::Level,
            "Level_0"
        ),
        Err(LdtkError::MissingFieldsForLevels {
            level: "Level_0".to_string(),
            field: "MaxHealth".to_string(),
        })
    );
    assert_eq!(
        Fields::deserialize_ldtk(
            &[fields_instance("maxhealth", fields_int(1))],
            &shapes,
            &[],
            OwnerKind::Level,
            "Level_0"
        ),
        Err(LdtkError::MissingFieldsForLevels {
            level: "Level_0".to_string(),
            field: "MaxHealth".to_string(),
        })
    );
}

#[test]
fn the_first_shape_that_fails_gives_the_error_of_the_record() {
    let shapes = [
        fields_shape("A", "Int", false),
        fields_shape("B", "Bool", false),
        fields_shape("C", "Int", false),
    ];
    let instances = [
        fields_instance("C", fields_text("no")),
        fields_instance("A", fields_int(1)),
    ];
    assert_eq!(
        Fields::deserialize_ldtk(&instances, &shapes, &[], OwnerKind::Entity, "Hero"),
        Err(LdtkError::MissingFieldsForEntities {
            entity: "Hero".to_string(),
            field: "B".to_string(),
        })
    );
}

#[test]
fn no_shapes_give_an_empty_record() {
    let record = Fields::deserialize_ldtk(
        &[fields_instance("Extra", fields_int(1))],
        &[],
        &[],
        OwnerKind::Level,
        "Level_0",
    )
    .unwrap();
    assert!(record.members.is_empty());
}

#[test]
fn errors_describe_themselves() {
    assert_eq!(
        LdtkError::UnknownLayerType("Voxels".to_string()).message(),
        "unknown layer type: Voxels"
    );
    assert_eq!(
        LdtkError::UnknownEntityType("Ghost".to_string()).message(),
        "unknown entity type: Ghost"
    );
    assert_eq!(
        LdtkError::UnknownFieldKind { identifier: "f".to_string(), kind: "Tile".to_string() }
            .message(),
        "unknown kind of field f: Tile"
    );
    assert_eq!(
        LdtkError::UnknownLayerKind { identifier: "l".to_string(), kind: "Heap".to_string() }
            .message(),
        "unknown kind of layer l: Heap"
    );
    assert_eq!(
        LdtkError::MalformedColor { text: "red".to_string() }.message(),
        "malformed color: red"
    );
    assert_eq!(
        LdtkError::MissingFieldsForEntities { entity: "Hero".to_string(), field: "hp".to_string() }
            .message(),
        "missing field of entity Hero: hp"
    );
    assert_eq!(
        LdtkError::MissingFieldsForLevels { level: "L0".to_string(), field: "hp".to_string() }
            .message(),
        "missing field of level L0: hp"
    );
    assert_eq!(
        LdtkError::MissingFieldsForLayers { layer: "Ground".to_string() }.message(),
        "missing layer: Ground"
    );
    assert_eq!(
        LdtkError::MismatchedFieldValue { owner: "Hero".to_string(), field: "hp".to_string() }
            .message(),
        "mismatched value of field of Hero: hp"
    );
    assert_eq!(
        LdtkError::UnmatchedEnumValue { enumeration: "Kind".to_string(), value: "X".to_string() }
            .message(),
        "unmatched value of enum Kind: X"
    );
    assert_eq!(
        LdtkError::SplitProject { level: "L0".to_string() }.message(),
        "level stored in a file of its own: L0"
    );
    assert_eq!(LdtkError::CoordinateOutOfRange.message(), "coordinate out of range");
}

#[test]
fn a_variant_is_found_by_its_name() {
    let enums = fields_enums();
    assert_eq!(
        parse_variant("ItemKind", "Potion", &enums),
        Ok(ScalarValue::Variant { index: 0, name: "Potion".to_string() })
    );
    assert_eq!(
        parse_variant("Mood", "Potion", &enums),
        Err(LdtkError::UnmatchedEnumValue {
            enumeration: "Mood".to_string(),
            value: "Potion".to_string(),
        })
    );
    assert_eq!(
        parse_variant("Weather", "Calm", &enums),
        Err(LdtkError::UnmatchedEnumValue {
            enumeration: "Weather".to_string(),
            value: "Calm".to_string(),
        })
    );
}

#[test]
fn a_scalar_is_decoded_by_its_kind() {
    let enums = fields_enums();
    assert_eq!(
        parse_scalar(&FieldKind::Int, &fields_int(4), &enums, "Hero", "hp"),
        Ok(ScalarValue::Int(4))
    );
    assert_eq!(
        parse_scalar(&FieldKind::Int, &FieldData::Null, &enums, "Hero", "hp"),
        Err(LdtkError::MismatchedFieldValue { owner: "Hero".to_string(), field: "hp".to_string() })
    );
    assert_eq!(
        parse_scalar(
            &FieldKind::LocalEnum { name: "Mood".to_string() },
            &fields_text("Calm"),
            &enums,
            "Hero",
            "mood"
        ),
        Ok(ScalarValue::Variant { index: 0, name: "Calm".to_string() })
    );
}

#[test]
fn every_declared_value_decodes_from_its_own_identifier() {
    let declared = ["Potion", "big_key", "BIG_KEY", "rusty-sword", "x2"];
    let enums = define_enums(&[EnumDef {
        identifier: "loot".to_string(),
        values: declared.iter().map(|value| value.to_string()).collect(),
    }]);
    for (index, identifier) in declared.iter().enumerate() {
        match parse_variant("Loot", identifier, &enums) {
            Ok(ScalarValue::Variant { index: found, name }) => {
                assert_eq!(found, index);
                assert_eq!(name, enums[0].values[index].name);
            }
            other => panic!("unexpected outcome: {:?}", other),
        }
    }
    assert_eq!(enums[0].values[1].name, "BigKey");
    assert_eq!(enums[0].values[2].name, "BigKey");
    assert_eq!(enums[0].values[3].name, "RustySword");
}

#[test]
fn the_first_of_two_values_with_one_identifier_is_taken() {
    let enums = define_enums(&[EnumDef {
        identifier: "loot".to_string(),
        values: vec!["a".to_string(), "b".to_string(), "a".to_string()],
    }]);
    assert_eq!(
        parse_variant("Loot", "a", &enums),
        Ok(ScalarValue::Variant { index: 0, name: "A".to_string() })
    );
}
