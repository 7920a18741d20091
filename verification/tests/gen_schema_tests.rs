use configurator::gen_schema::{schema_for, RustSchemaKind, RustSchemaOrRef, Shape, ShapeDef};
use configurator::test_common::{DefaultCustomStruct, DefaultTraitEnum, DefaultTraitStruct};

#[test]
fn default_trait_struct() {
    let shape = DefaultTraitStruct::shape();
    println!("{:?}", &shape);
}

#[test]
fn default_custom_struct() {
    let shape = DefaultCustomStruct::shape();
    println!("{:?}", &shape);
}

#[test]
fn default_trait_enum() {
    let shape = DefaultTraitEnum::shape();
    println!("{:?}", &shape);
}

#[test]
fn default() {
    let schema = schema_for(&DefaultTraitEnum::shape());
    println!("{:?}", &schema);
}

#[test]
fn schema_for_struct_shape() {
    let root = schema_for(&DefaultTraitStruct::shape()).unwrap();
    match &root.schema {
        RustSchemaOrRef::Ref(key) => {
            assert_eq!(key, "#/$defs/DefaultTraitStruct");
        }
        RustSchemaOrRef::Schema(_) => panic!("expected a reference to the definition"),
    }
    let (key, schema) = root.definitions.last().unwrap();
    assert_eq!(key, "#/$defs/DefaultTraitStruct");
    match &schema.kind {
        RustSchemaKind::Struct(name, fields) => {
            assert_eq!(name, "DefaultTraitStruct");
            assert_eq!(fields.len(), 1);
            assert_eq!(fields[0].0, "x");
            match &fields[0].1 {
                RustSchemaOrRef::Schema(inner) => {
                    assert!(matches!(
                        inner.kind,
                        RustSchemaKind::Number(configurator::number::NumberValueLight::I32)
                    ));
                }
                RustSchemaOrRef::Ref(_) => panic!("a scalar field is inlined"),
            }
        }
        _ => panic!("expected a struct schema"),
    }
}

#[test]
fn schema_for_unknown_scalar_fails() {
    let shape = Shape {
        type_identifier: "NotAScalar".to_string(),
        doc: None,
        def: ShapeDef::Scalar,
    };
    assert!(schema_for(&shape).is_err());
}

#[test]
fn schema_for_scalar() {
    let root = schema_for(&Shape::scalar("bool")).unwrap();
    match &root.schema {
        RustSchemaOrRef::Schema(s) => assert!(matches!(s.kind, RustSchemaKind::Boolean)),
        RustSchemaOrRef::Ref(_) => panic!("a scalar is inlined"),
    }
    assert!(root.definitions.is_empty());
}
