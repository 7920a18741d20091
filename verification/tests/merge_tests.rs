use configurator::number::Number;
use configurator::value::{Value, ValueMap};

#[test]
fn merge_scalars() {
    assert_eq!(
        Value::Bool(true).merge(&Value::Bool(false)),
        Value::Bool(false)
    );
    assert_eq!(
        Value::String("a".into()).merge(&Value::String("b".into())),
        Value::String("b".into())
    );
    assert_eq!(Value::Empty.merge(&Value::Bool(true)), Value::Bool(true));
    assert_eq!(Value::Bool(true).merge(&Value::Empty), Value::Bool(true));
}

#[test]
fn merge_option() {
    let a = Value::Option(Some(Box::new(Value::Number(Number::I32(1)))));
    let b = Value::Option(Some(Box::new(Value::Number(Number::I32(2)))));
    assert_eq!(a.merge(&b), b);

    let none: Value = Value::Option(None);
    assert_eq!(a.merge(&none), a);
    assert_eq!(none.merge(&a), a);
}

#[test]
fn merge_maps_and_structs() {
    let mut m1 = ValueMap::new();
    m1.insert(Value::from("x"), Value::from(1));
    let mut m2 = ValueMap::new();
    m2.insert(Value::from("y"), Value::from(2));
    m2.insert(Value::from("x"), Value::from(3));
    let merged = Value::Dict(m1).merge(&Value::Dict(m2));
    if let Value::Dict(m) = merged {
        assert_eq!(m.get(&Value::from("x")), Some(&Value::from(3)));
        assert_eq!(m.get(&Value::from("y")), Some(&Value::from(2)));
    } else {
        panic!("expected map");
    }

    let mut s1 = configurator::value::FieldMap::new();
    s1.insert("a".to_string(), Value::from(1));
    let mut s2 = configurator::value::FieldMap::new();
    s2.insert("b".to_string(), Value::from(2));
    s2.insert("a".to_string(), Value::from(3));
    let merged = Value::Struct(None, s1).merge(&Value::Struct(None, s2));
    if let Value::Struct(_, ms) = merged {
        assert_eq!(ms.get(&"a".to_string()), Some(&Value::from(3)));
        assert_eq!(ms.get(&"b".to_string()), Some(&Value::from(2)));
    } else {
        panic!("expected struct");
    }
}

#[test]
fn merge_lists() {
    let a = Value::List(vec![Value::from(1), Value::from(2)]);
    let b = Value::List(vec![Value::from(10)]);
    let merged = a.merge(&b);
    assert_eq!(merged, Value::List(vec![Value::from(10), Value::from(2)]));
}

#[test]
fn merge_structs_tag_right_bias() {
    let s1 = Value::Struct(Some("L".to_string()), configurator::value::FieldMap::new());
    let s2 = Value::Struct(Some("R".to_string()), configurator::value::FieldMap::new());
    if let Value::Struct(tag, _) = s1.merge(&s2) {
        assert_eq!(tag, Some("R".to_string()));
    } else {
        panic!("expected struct");
    }
    let s3 = Value::Struct(None, configurator::value::FieldMap::new());
    let s4 = Value::Struct(Some("L".to_string()), configurator::value::FieldMap::new());
    if let Value::Struct(tag, _) = s4.merge(&s3) {
        assert_eq!(tag, Some("L".to_string()));
    } else {
        panic!("expected struct");
    }
}

#[test]
fn value_eq_decides_structure() {
    let a = Value::Tuple(vec![Value::Bool(true), Value::String("x".into())]);
    let b = Value::Tuple(vec![Value::Bool(true), Value::String("x".into())]);
    let c = Value::Tuple(vec![Value::Bool(true), Value::String("y".into())]);
    assert!(configurator::eq::value_eq(&a, &b));
    assert!(!configurator::eq::value_eq(&a, &c));
    assert!(!configurator::eq::value_eq(&a, &Value::List(vec![])));

    let d = configurator::eq::value_dup(&a);
    assert_eq!(a, d);
}
