use notion::error::DecodeError;
use notion::json::{parse_json, to_json_string, Json};
use notion::property_schema::{
    NumberFormat, PropertySchema, RelationType, RollupFunction, SelectOptionSchema,
};

#[test]
fn property_schema_serialization() {
    let schema = PropertySchema::Title {};
    let serialized = schema.to_json_text();
    assert_eq!(serialized, "{\"title\":{}}");

    let schema = PropertySchema::Number {
        format: Some(NumberFormat::Dollar),
    };
    let serialized = schema.to_json_text();
    assert_eq!(serialized, "{\"number\":{\"format\":\"dollar\"}}");

    let schema = PropertySchema::Relation {
        database_id: "foobar".to_string(),
        relation_type: RelationType::DualProperty,
    };
    let serialized = schema.to_json_text();
    assert_eq!(
        serialized,
        "{\"relation\":{\"database_id\":\"foobar\",\"type\":\"dual_property\"}}"
    );
}

#[test]
fn title_round_trip() {
    let schema = PropertySchema::Title {};
    assert_eq!(PropertySchema::decode(&schema.encode()), Ok(schema));
}

#[test]
fn number_round_trip() {
    for format in [None, Some(NumberFormat::Dollar), Some(NumberFormat::NumberWithCommas)] {
        let schema = PropertySchema::Number { format };
        assert_eq!(PropertySchema::decode(&schema.encode()), Ok(schema));
    }
}

#[test]
fn select_round_trip() {
    let options = vec![
        SelectOptionSchema {
            name: "urgent".to_string(),
            color: Some("red".to_string()),
        },
        SelectOptionSchema {
            name: "later".to_string(),
            color: None,
        },
    ];
    for schema in [
        PropertySchema::Select {
            options: Some(options.clone()),
        },
        PropertySchema::Select { options: None },
        PropertySchema::MultiSelect {
            options: Some(options),
        },
    ] {
        assert_eq!(PropertySchema::decode(&schema.encode()), Ok(schema));
    }
}

#[test]
fn formula_round_trip() {
    let schema = PropertySchema::Formula {
        expression: "prop(\"a\") + 1".to_string(),
    };
    assert_eq!(PropertySchema::decode(&schema.encode()), Ok(schema));
}

#[test]
fn rollup_round_trip() {
    let schema = PropertySchema::Rollup {
        relation_property_name: Some("tasks".to_string()),
        relation_property_id: None,
        rollup_property_name: Some("done".to_string()),
        rollup_property_id: None,
        function: RollupFunction::PercentNotEmpty,
    };
    assert_eq!(PropertySchema::decode(&schema.encode()), Ok(schema));

    let schema = PropertySchema::Rollup {
        relation_property_name: None,
        relation_property_id: None,
        rollup_property_name: None,
        rollup_property_id: None,
        function: RollupFunction::CountAll,
    };
    assert_eq!(PropertySchema::decode(&schema.encode()), Ok(schema));
}

#[test]
fn rollup_serialization() {
    let schema = PropertySchema::Rollup {
        relation_property_name: None,
        relation_property_id: Some("abcd".to_string()),
        rollup_property_name: None,
        rollup_property_id: Some("efgh".to_string()),
        function: RollupFunction::Median,
    };
    let parsed = parse_json(&schema.to_json_text()).unwrap();
    assert_eq!(PropertySchema::decode(&parsed), Ok(schema));
}

#[test]
fn decode_from_text() {
    let decoded =
        PropertySchema::from_json_text("{\"number\":{\"format\":\"percent\"}}").unwrap();
    assert_eq!(
        decoded,
        PropertySchema::Number {
            format: Some(NumberFormat::Percent)
        }
    );
}

#[test]
fn unknown_keys_inside_config_are_ignored() {
    let decoded =
        PropertySchema::from_json_text("{\"checkbox\":{\"future_field\":[1,2,3]}}").unwrap();
    assert_eq!(decoded, PropertySchema::Checkbox {});
}

#[test]
fn unknown_tag_is_rejected() {
    let err = PropertySchema::from_json_text("{\"status\":{}}").unwrap_err();
    assert_eq!(err, DecodeError::UnknownVariant);
}

#[test]
fn missing_required_field_is_rejected() {
    let err = PropertySchema::from_json_text("{\"relation\":{\"type\":\"dual_property\"}}")
        .unwrap_err();
    assert_eq!(err, DecodeError::MissingField);

    let err = PropertySchema::from_json_text("{\"formula\":{}}").unwrap_err();
    assert_eq!(err, DecodeError::MissingField);
}

#[test]
fn invalid_enum_value_is_rejected() {
    let err = PropertySchema::from_json_text("{\"number\":{\"format\":\"doubloons\"}}")
        .unwrap_err();
    assert_eq!(err, DecodeError::InvalidEnumValue);

    let err = PropertySchema::from_json_text(
        "{\"relation\":{\"database_id\":\"x\",\"type\":\"triple_property\"}}",
    )
    .unwrap_err();
    assert_eq!(err, DecodeError::InvalidEnumValue);
}

#[test]
fn shape_mismatch_is_rejected() {
    let err = PropertySchema::from_json_text("{\"select\":{\"options\":7}}").unwrap_err();
    assert_eq!(err, DecodeError::TypeMismatch);

    let err = PropertySchema::from_json_text("[\"title\"]").unwrap_err();
    assert_eq!(err, DecodeError::TypeMismatch);

    let err = PropertySchema::from_json_text("{\"title\":{},\"url\":{}}").unwrap_err();
    assert_eq!(err, DecodeError::TypeMismatch);

    let err = PropertySchema::from_json_text("not json at all").unwrap_err();
    assert_eq!(err, DecodeError::TypeMismatch);
}

#[test]
fn json_text_and_parse_agree() {
    let value = Json::Object(vec![(
        "note".to_string(),
        Json::Array(vec![Json::Bool(true), Json::Null, Json::String("x".to_string())]),
    )]);
    let text = to_json_string(&value);
    assert_eq!(text, "{\"note\":[true,null,\"x\"]}");
    assert!(parse_json(&text).is_some());
    assert!(parse_json("{{").is_none());
}
