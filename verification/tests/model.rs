use kiss_controller::model::{
    convert_name, kind_for, parse_crd_ref, pick_version, Bound, ModelError, ModelFieldKindSpec,
    ModelFieldSpec, ModelFieldsParser, Number, Property, Refused, SchemaProps, SchemaValue,
};
use kiss_controller::order::name_less;

fn schema(type_: &str) -> SchemaProps {
    SchemaProps {
        type_: Some(type_.to_string()),
        format: None,
        minimum: None,
        maximum: None,
        default: None,
        enum_: None,
        nullable: None,
        properties: None,
    }
}

fn text_of_form(format: &str) -> SchemaProps {
    SchemaProps { format: Some(format.to_string()), ..schema("string") }
}

fn object(parts: Vec<(&str, SchemaProps)>) -> SchemaProps {
    SchemaProps {
        properties: Some(
            parts
                .into_iter()
                .map(|(name, schema)| Property { name: name.to_string(), schema })
                .collect(),
        ),
        ..schema("object")
    }
}

fn bound(value: f64) -> Bound {
    Bound { value: Number { bits: value.to_bits() }, rounded: value.round() as i64 }
}

fn integer(value: i64) -> SchemaValue {
    SchemaValue {
        integer: Some(value),
        number: Some(Number { bits: (value as f64).to_bits() }),
        text: None,
    }
}

fn number(value: f64) -> SchemaValue {
    SchemaValue { integer: None, number: Some(Number { bits: value.to_bits() }), text: None }
}

fn text(value: &str) -> SchemaValue {
    SchemaValue { integer: None, number: None, text: Some(value.to_string()) }
}

fn field(name: &str, kind: ModelFieldKindSpec, nullable: bool) -> ModelFieldSpec {
    ModelFieldSpec { name: name.to_string(), kind, nullable }
}

fn parse(root: &SchemaProps) -> Result<Vec<ModelFieldSpec>, ModelError> {
    let mut parser = ModelFieldsParser::default();
    parser.parse_custom_resource_definition(Some(root))?;
    Ok(parser.finalize())
}

#[test]
fn names_are_paths_from_the_root() {
    assert_eq!(convert_name(None, ""), "/");
    assert_eq!(convert_name(None, "x"), "/x");
    assert_eq!(convert_name(Some("/"), "spec"), "/spec/");
    assert_eq!(convert_name(Some("/spec/"), "replicas"), "/spec/replicas/");
}

#[test]
fn whole_numbers_take_rounded_bounds() {
    let prop = SchemaProps {
        minimum: Some(bound(0.6)),
        maximum: Some(bound(9.4)),
        ..schema("integer")
    };
    assert_eq!(
        kind_for(&prop),
        Ok(Some(ModelFieldKindSpec::Integer { default: Some(1), minimum: Some(1), maximum: Some(9) }))
    );
    let prop = SchemaProps { default: Some(integer(5)), ..prop };
    assert_eq!(
        kind_for(&prop),
        Ok(Some(ModelFieldKindSpec::Integer { default: Some(5), minimum: Some(1), maximum: Some(9) }))
    );
    let prop = SchemaProps { default: Some(text("5")), maximum: None, minimum: None, ..prop };
    assert_eq!(
        kind_for(&prop),
        Ok(Some(ModelFieldKindSpec::Integer { default: None, minimum: None, maximum: None }))
    );
}

#[test]
fn numbers_keep_their_bounds() {
    let low = Number { bits: 0.5f64.to_bits() };
    let high = Number { bits: 2.5f64.to_bits() };
    let prop = SchemaProps {
        minimum: Some(bound(0.5)),
        maximum: Some(bound(2.5)),
        ..schema("number")
    };
    assert_eq!(
        kind_for(&prop),
        Ok(Some(ModelFieldKindSpec::Number {
            default: Some(low),
            minimum: Some(low),
            maximum: Some(high)
        }))
    );
    let prop = SchemaProps { default: Some(number(1.25)), ..prop };
    assert_eq!(
        kind_for(&prop),
        Ok(Some(ModelFieldKindSpec::Number {
            default: Some(Number { bits: 1.25f64.to_bits() }),
            minimum: Some(low),
            maximum: Some(high)
        }))
    );
}

#[test]
fn texts_by_their_form() {
    assert_eq!(
        kind_for(&text_of_form("date-time")),
        Ok(Some(ModelFieldKindSpec::DateTime { default: None }))
    );
    assert_eq!(kind_for(&text_of_form("ip")), Ok(Some(ModelFieldKindSpec::Ip {})));
    assert_eq!(kind_for(&text_of_form("uuid")), Ok(Some(ModelFieldKindSpec::Uuid {})));
    assert_eq!(
        kind_for(&text_of_form("email")),
        Err(Refused::Format("email".to_string()))
    );
    let plain = SchemaProps { default: Some(text("hello")), ..schema("string") };
    assert_eq!(
        kind_for(&plain),
        Ok(Some(ModelFieldKindSpec::String { default: Some("hello".to_string()) }))
    );
    let choice = SchemaProps {
        default: Some(text("b")),
        enum_: Some(vec![text("a"), integer(3), text("b")]),
        ..schema("string")
    };
    assert_eq!(
        kind_for(&choice),
        Ok(Some(ModelFieldKindSpec::OneOfStrings {
            default: Some("b".to_string()),
            choices: vec!["a".to_string(), "b".to_string()],
        }))
    );
}

#[test]
fn objects_and_unknown_types() {
    assert_eq!(kind_for(&schema("object")), Ok(None));
    assert_eq!(kind_for(&schema("array")), Err(Refused::Type(Some("array".to_string()))));
    let untyped = SchemaProps { type_: None, ..schema("") };
    assert_eq!(kind_for(&untyped), Err(Refused::Type(None)));
}

#[test]
fn fields_come_out_in_the_order_of_their_names() {
    let root = object(vec![
        (
            "spec",
            object(vec![
                ("a", object(vec![("x", schema("string"))])),
                ("a-b", SchemaProps { nullable: Some(true), ..schema("integer") }),
                ("zone", text_of_form("ip")),
            ]),
        ),
        ("status", object(vec![])),
    ]);
    assert_eq!(
        parse(&root),
        Ok(vec![
            field(
                "/spec/a-b/",
                ModelFieldKindSpec::Integer { default: None, minimum: None, maximum: None },
                true
            ),
            field("/spec/a/x/", ModelFieldKindSpec::String { default: None }, false),
            field("/spec/zone/", ModelFieldKindSpec::Ip {}, false),
        ])
    );
}

#[test]
fn root_that_is_a_field_goes_by_the_root_path() {
    assert_eq!(
        parse(&schema("string")),
        Ok(vec![field("/", ModelFieldKindSpec::String { default: None }, false)])
    );
}

#[test]
fn version_without_schema_has_no_fields() {
    let mut parser = ModelFieldsParser::default();
    assert_eq!(parser.parse_custom_resource_definition(None), Ok(()));
    assert_eq!(parser.finalize(), vec![]);
}

#[test]
fn second_field_of_a_name_is_refused() {
    let root = object(vec![
        ("a", object(vec![("b", schema("string"))])),
        ("a/b", schema("integer")),
    ]);
    assert_eq!(
        parse(&root),
        Err(ModelError::ConflictedName { name: "/a/b/".to_string(), raw: "a/b".to_string() })
    );
}

#[test]
fn unknown_schemas_are_refused_by_path() {
    let root = object(vec![("spec", object(vec![("list", schema("array"))]))]);
    assert_eq!(
        parse(&root),
        Err(ModelError::UnknownType {
            name: "/spec/list/".to_string(),
            type_: Some("array".to_string())
        })
    );
    let root = object(vec![("mail", text_of_form("email"))]);
    assert_eq!(
        parse(&root),
        Err(ModelError::UnknownStringFormat {
            name: "/mail/".to_string(),
            format: "email".to_string()
        })
    );
    let root = object(vec![("any", SchemaProps { type_: None, ..schema("") })]);
    assert_eq!(
        parse(&root),
        Err(ModelError::UnknownType { name: "/any/".to_string(), type_: None })
    );
}

#[test]
fn parser_keeps_what_it_read_before() {
    let mut parser = ModelFieldsParser::default();
    assert_eq!(parser.parse_json_property(Some("/"), "b", &schema("string")), Ok(()));
    assert_eq!(parser.parse_json_property(Some("/"), "a", &schema("string")), Ok(()));
    assert!(parser.contains_key("/a/"));
    assert!(parser.contains_key("/b/"));
    assert!(!parser.contains_key("/c/"));
    assert_eq!(
        parser.parse_json_property(Some("/"), "a", &schema("integer")),
        Err(ModelError::ConflictedName { name: "/a/".to_string(), raw: "a".to_string() })
    );
    let names: Vec<String> = parser.finalize().into_iter().map(|field| field.name).collect();
    assert_eq!(names, vec!["/a/", "/b/"]);
}

#[test]
fn names_are_ordered_as_strings_are() {
    let names = ["", "/", "/a", "/a-b/", "/a/", "/a/x/", "/ab/", "/b", "/\u{e9}", "/\u{20ac}", "0"];
    for left in names {
        for right in names {
            assert_eq!(name_less(left, right), left < right, "{:?} {:?}", left, right);
        }
    }
}

#[test]
fn reference_is_a_name_and_a_version() {
    assert_eq!(
        parse_crd_ref("boxes.kiss.ulagbulag.io/v1alpha1"),
        Ok(("boxes.kiss.ulagbulag.io".to_string(), "v1alpha1".to_string()))
    );
    assert_eq!(parse_crd_ref("/v1"), Ok(("".to_string(), "v1".to_string())));
    assert_eq!(parse_crd_ref("name/"), Ok(("name".to_string(), "".to_string())));
    assert_eq!(parse_crd_ref("name"), Err(ModelError::InvalidName));
    assert_eq!(parse_crd_ref(""), Err(ModelError::InvalidName));
    assert_eq!(parse_crd_ref("a/b/c"), Err(ModelError::InvalidName));
    assert_eq!(parse_crd_ref("\u{e9}t\u{e9}/v\u{20ac}"), Ok(("\u{e9}t\u{e9}".to_string(), "v\u{20ac}".to_string())));
}

#[test]
fn version_is_picked_by_name() {
    let versions = vec!["v1alpha1".to_string(), "v1".to_string(), "v1".to_string()];
    assert_eq!(pick_version(&versions, "v1"), Ok(1));
    assert_eq!(pick_version(&versions, "v1alpha1"), Ok(0));
    assert_eq!(
        pick_version(&versions, "v2"),
        Err(ModelError::UnknownVersion {
            version: "v2".to_string(),
            known: "v1alpha1,v1,v1".to_string()
        })
    );
    assert_eq!(
        pick_version(&vec![], "v1"),
        Err(ModelError::UnknownVersion { version: "v1".to_string(), known: "".to_string() })
    );
}
