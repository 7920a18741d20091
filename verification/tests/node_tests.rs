use configurator::apply::ReconciliationError;
use configurator::node::NodeContainer;
use configurator::number::Number;
use configurator::schema::{
    InstanceKind, ItemsSpec, ObjectSpec, RootSchema, Schema, SchemaError, TypesSpec,
};
use configurator::value::{FieldMap, Value, ValueMap};

fn instance(kind: InstanceKind) -> Schema {
    let mut s = Schema::empty();
    s.instance_type = Some(TypesSpec::Single(kind));
    s
}

fn compile(schema: Schema) -> NodeContainer {
    NodeContainer::from_json_schema2(&RootSchema {
        schema,
        definitions: Vec::new(),
    })
    .unwrap()
}

fn string_value(s: &str) -> Value {
    Value::String(s.to_string())
}

fn struct_value(fields: Vec<(&str, Value)>) -> Value {
    let mut m = FieldMap::new();
    for (k, v) in fields {
        m.insert(k.to_string(), v);
    }
    Value::Struct(None, m)
}

#[test]
fn test_bool() {
    let mut tree = compile(instance(InstanceKind::Boolean));
    tree.apply_value(&Value::Bool(true), true).unwrap();
    assert_eq!(tree.to_value(), Some(Value::Bool(true)));
}

#[test]
fn test_string() {
    let mut tree = compile(instance(InstanceKind::String));
    tree.apply_value(&string_value("hello"), true).unwrap();
    assert_eq!(tree.to_value(), Some(string_value("hello")));
}

#[test]
fn test_number() {
    let mut tree = compile(instance(InstanceKind::Integer));
    tree.apply_value(&Value::Number(Number::I32(-5)), true)
        .unwrap();
    assert_eq!(tree.to_value(), Some(Value::Number(Number::I32(-5))));
}

#[test]
fn test_enum_simple() {
    let mut one_of = Schema::empty();
    one_of.one_of = Some(vec![
        instance(InstanceKind::Boolean),
        instance(InstanceKind::String),
    ]);
    let mut tree = compile(one_of);
    tree.apply_value(&string_value("x"), true).unwrap();
    assert_eq!(tree.to_value(), Some(string_value("x")));
}

#[test]
fn test_option() {
    // an optional string: a two-type schema including null compiles to an
    // enum over [Null, String]
    let mut s = Schema::empty();
    s.instance_type = Some(TypesSpec::Many(vec![
        InstanceKind::Null,
        InstanceKind::String,
    ]));
    let mut tree = compile(s);
    tree.apply_value(&Value::Option(None), true).unwrap();
    assert_eq!(tree.to_value(), Some(Value::Option(None)));

    tree.remove_value_rec();
    tree.apply_value(&string_value("set"), true).unwrap();
    assert_eq!(tree.to_value(), Some(string_value("set")));
}

#[test]
fn test_tuple() {
    let mut s = instance(InstanceKind::Array);
    s.items = Some(ItemsSpec::Many(vec![
        instance(InstanceKind::String),
        instance(InstanceKind::String),
    ]));
    let mut tree = compile(s);
    let v = Value::Tuple(vec![string_value("a"), string_value("b")]);
    tree.apply_value(&v, true).unwrap();
    assert_eq!(tree.to_value(), Some(v));
}

#[test]
fn test_vec() {
    let mut s = instance(InstanceKind::Array);
    s.items = Some(ItemsSpec::Single(Box::new(instance(InstanceKind::Integer))));
    let mut tree = compile(s);
    let v = Value::List(vec![
        Value::Number(Number::I32(1)),
        Value::Number(Number::I32(2)),
    ]);
    tree.apply_value(&v, true).unwrap();
    assert_eq!(tree.to_value(), Some(v));
}

#[test]
fn test_hash_map() {
    // no declared properties, an extra-properties schema: a template-only
    // object that round-trips map values
    let mut s = instance(InstanceKind::Object);
    s.object = Some(ObjectSpec {
        properties: Vec::new(),
        additional: Some(Box::new(instance(InstanceKind::Integer))),
    });
    let mut tree = compile(s);
    let mut m = ValueMap::new();
    m.insert(string_value("k"), Value::Number(Number::I32(0)));
    m.insert(string_value("j"), Value::Number(Number::I32(7)));
    let v = Value::Dict(m);
    tree.apply_value(&v, true).unwrap();
    assert_eq!(tree.to_value(), Some(v));
}

#[test]
fn enum_disambiguation() {
    // an Enum over [Bool, String] selects by structural kind and rejects a
    // number when no numeric variant exists
    let mut one_of = Schema::empty();
    one_of.one_of = Some(vec![
        instance(InstanceKind::Boolean),
        instance(InstanceKind::String),
    ]);
    let mut tree = compile(one_of);

    tree.apply_value(&Value::Bool(true), true).unwrap();
    assert_eq!(tree.to_value(), Some(Value::Bool(true)));

    tree.apply_value(&string_value("x"), true).unwrap();
    assert_eq!(tree.to_value(), Some(string_value("x")));

    let err = tree.apply_value(&Value::Number(Number::I32(1)), true);
    assert_eq!(err, Err(ReconciliationError::NoMatchingVariant));
}

#[test]
fn array_rebuild() {
    // an array already holding 3 elements holds exactly 1 after a 1-element
    // apply: no stale leftovers
    let mut s = instance(InstanceKind::Array);
    s.items = Some(ItemsSpec::Single(Box::new(instance(InstanceKind::Boolean))));
    let mut tree = compile(s);
    let three = Value::List(vec![
        Value::Bool(true),
        Value::Bool(false),
        Value::Bool(true),
    ]);
    tree.apply_value(&three, true).unwrap();
    assert_eq!(tree.to_value(), Some(three));

    let one = Value::List(vec![Value::Bool(false)]);
    tree.apply_value(&one, true).unwrap();
    assert_eq!(tree.to_value(), Some(one));
}

fn scenario_schema() -> Schema {
    let mut tags = instance(InstanceKind::Array);
    tags.items = Some(ItemsSpec::Single(Box::new(instance(InstanceKind::String))));
    let mut s = instance(InstanceKind::Object);
    s.object = Some(ObjectSpec {
        properties: vec![
            ("bool".to_string(), instance(InstanceKind::Boolean)),
            ("tags".to_string(), tags),
        ],
        additional: None,
    });
    s
}

#[test]
fn scenario_round_trip() {
    let mut tree = compile(scenario_schema());
    let v = struct_value(vec![
        ("bool", Value::Bool(true)),
        (
            "tags",
            Value::List(vec![string_value("a"), string_value("b")]),
        ),
    ]);
    tree.apply_value(&v, true).unwrap();
    assert_eq!(tree.to_value(), Some(v));
}

#[test]
fn scenario_default_suppression() {
    let mut tree = compile(scenario_schema());
    let v = struct_value(vec![("bool", Value::Bool(true))]);
    tree.apply_value(&v, true).unwrap();
    assert!(tree.to_value().is_some());

    // reset, then seed defaults only: nothing is emitted, whatever the
    // root's own flag says
    tree.remove_value_rec();
    tree.apply_value(&Value::Empty, true).unwrap();
    assert_eq!(tree.to_value(), None);

    tree.apply_value(&Value::Empty, false).unwrap();
    assert_eq!(tree.to_value(), None);
}

#[test]
fn present_fields_are_marked_modified() {
    // a declared field supplied by the incoming struct is bound modified even
    // when the caller's flag is off, so it is emitted once the root is marked
    let mut tree = compile(scenario_schema());
    tree.apply_value(&struct_value(vec![("bool", Value::Bool(true))]), false)
        .unwrap();
    if let configurator::node::Node::Object(o) = &tree.node {
        assert!(o.nodes[0].1.modified);
    } else {
        panic!("expected an object node");
    }
    // the root itself carries the caller's flag
    assert!(!tree.modified);
    assert_eq!(tree.to_value(), None);
}

#[test]
fn reset_clears_enum_variants() {
    let mut one_of = Schema::empty();
    one_of.one_of = Some(vec![
        instance(InstanceKind::Boolean),
        instance(InstanceKind::String),
    ]);
    let mut tree = compile(one_of);
    tree.apply_value(&string_value("stale"), true).unwrap();
    tree.remove_value_rec();
    // the selection is gone and the variant subtree holds no stale binding
    if let configurator::node::Node::Enum(e) = &tree.node {
        assert!(e.value.is_none());
        assert!(!e.nodes[1].modified);
        if let configurator::node::Node::String(sn) = &e.nodes[1].node {
            assert!(sn.value.is_none());
        } else {
            panic!("expected a string variant");
        }
    } else {
        panic!("expected an enum node");
    }
    assert_eq!(tree.to_value(), None);
}

#[test]
fn merge_any_keeps_metadata() {
    // the unconstrained node is a two-sided identity of the compile-time
    // union: merging with it loses neither side's metadata
    let mut titled = NodeContainer::from_node(configurator::node::Node::Bool(
        configurator::node::NodeBool::new(),
    ));
    titled.title = Some("keep me".to_string());
    let any = NodeContainer::from_node(configurator::node::Node::Any);
    let merged = titled.merge(&any);
    assert_eq!(merged.title, Some("keep me".to_string()));
    let merged = any.merge(&titled);
    assert_eq!(merged.title, Some("keep me".to_string()));
}

#[test]
fn idempotence() {
    let mut once = compile(scenario_schema());
    let v = struct_value(vec![
        ("bool", Value::Bool(false)),
        ("tags", Value::List(vec![string_value("z")])),
    ]);
    once.apply_value(&v, true).unwrap();
    let first = once.to_value();

    once.apply_value(&v, true).unwrap();
    assert_eq!(once.to_value(), first);
}

#[test]
fn remove_value_rec() {
    let mut tree = compile(scenario_schema());
    tree.apply_value(&struct_value(vec![("bool", Value::Bool(true))]), true)
        .unwrap();
    assert!(tree.is_valid());
    tree.remove_value_rec();
    assert!(!tree.modified);
    assert_eq!(tree.to_value(), None);
}

#[test]
fn fixed_array_length_mismatch_fails() {
    let mut s = instance(InstanceKind::Array);
    s.items = Some(ItemsSpec::Many(vec![
        instance(InstanceKind::Boolean),
        instance(InstanceKind::Boolean),
    ]));
    let mut tree = compile(s);
    let too_long = Value::Tuple(vec![
        Value::Bool(true),
        Value::Bool(true),
        Value::Bool(true),
    ]);
    let err = tree.apply_value(&too_long, true);
    assert_eq!(err, Err(ReconciliationError::LengthMismatch));

    // length agreement is required in both directions
    let too_short = Value::Tuple(vec![Value::Bool(true)]);
    let err = tree.apply_value(&too_short, true);
    assert_eq!(err, Err(ReconciliationError::LengthMismatch));
}

#[test]
fn single_entry_items_list_is_fixed() {
    // a per-position items list keeps its fixed shape even with one entry:
    // it accepts exactly one element, not any length
    let mut s = instance(InstanceKind::Array);
    s.items = Some(ItemsSpec::Many(vec![instance(InstanceKind::Boolean)]));
    let mut tree = compile(s);
    let one = Value::Tuple(vec![Value::Bool(true)]);
    tree.apply_value(&one, true).unwrap();
    assert_eq!(tree.to_value(), Some(one));

    let two = Value::Tuple(vec![Value::Bool(true), Value::Bool(false)]);
    let err = tree.apply_value(&two, true);
    assert_eq!(err, Err(ReconciliationError::LengthMismatch));
}

#[test]
fn scalar_kind_mismatch_is_tolerated() {
    let mut tree = compile(instance(InstanceKind::Boolean));
    tree.apply_value(&Value::Bool(true), true).unwrap();
    // a kind mismatch is not an error: the prior binding stays
    tree.apply_value(&string_value("nope"), true).unwrap();
    assert_eq!(tree.to_value(), Some(Value::Bool(true)));
}

#[test]
fn unknown_reference_fails() {
    let mut s = Schema::empty();
    s.reference = Some("Missing".to_string());
    let r = NodeContainer::from_json_schema2(&RootSchema {
        schema: s,
        definitions: Vec::new(),
    });
    assert_eq!(r.err(), Some(SchemaError::UnknownReference));
}

#[test]
fn cyclic_reference_fails() {
    let mut root = Schema::empty();
    root.reference = Some("A".to_string());
    let mut cyclic = Schema::empty();
    cyclic.reference = Some("A".to_string());
    let r = NodeContainer::from_json_schema2(&RootSchema {
        schema: root,
        definitions: vec![("A".to_string(), cyclic)],
    });
    assert_eq!(r.err(), Some(SchemaError::RecursionLimit));
}

#[test]
fn default_seeding_renders_without_emitting() {
    // a field default is applied unmodified: renderable on reload passes,
    // but never serialized — a tree holding nothing but defaults emits
    // nothing at all
    let mut field = instance(InstanceKind::Boolean);
    field.metadata = Some(configurator::schema::SchemaMeta {
        title: None,
        description: None,
        default: Some(Value::Bool(true)),
    });
    let mut s = instance(InstanceKind::Object);
    s.object = Some(ObjectSpec {
        properties: vec![("flag".to_string(), field)],
        additional: None,
    });
    let mut tree = compile(s);
    tree.apply_value(&Value::Struct(None, FieldMap::new()), true)
        .unwrap();
    // the default is bound in the tree but nothing is emitted
    if let configurator::node::Node::Object(o) = &tree.node {
        if let configurator::node::Node::Bool(b) = &o.nodes[0].1.node {
            assert_eq!(b.value, Some(true));
        } else {
            panic!("expected a boolean field");
        }
        assert!(!o.nodes[0].1.modified);
    } else {
        panic!("expected an object node");
    }
    assert_eq!(tree.to_value(), None);
}

#[test]
fn test_float() {
    let mut tree = compile(instance(InstanceKind::Number));
    let v = Value::Number(Number::F64(configurator::number::F64(13.2f64.to_bits())));
    tree.apply_value(&v, true).unwrap();
    assert_eq!(tree.to_value(), Some(v));
}
