//! The generic value model: a canonical tagged union representing any
//! serializable datum, independent of its source format.
//!
//! Maps and structs are ordered associations: equality requires matching
//! insertion order, a documented invariant of the model.

use vstd::prelude::*;

use crate::number::Number;

verus! {

/// Mathematical model of a [`Value`]: the same tree with sequences in place
/// of vectors and strings.
#[verifier::ext_equal]
pub enum ValueV {
    Empty,
    Unit,
    Bool(bool),
    Char(char),
    Number(Number),
    String(Seq<char>),
    Bytes(Seq<u8>),
    Option(Option<Box<ValueV>>),
    List(Seq<ValueV>),
    Dict(Seq<(ValueV, ValueV)>),
    Tuple(Seq<ValueV>),
    UnitStruct(Seq<char>),
    Struct(Option<Seq<char>>, Seq<(Seq<char>, ValueV)>),
    NamedTuple(Seq<char>, Seq<ValueV>),
}

/// An insertion-ordered association of value keys to values.
#[derive(Debug, PartialEq, Eq)]
pub struct ValueMap(pub Vec<(Value, Value)>);

/// An insertion-ordered association of string keys to values.
#[derive(Debug, PartialEq, Eq)]
pub struct FieldMap(pub Vec<(String, Value)>);

/// A canonical tagged union representing any serializable datum.
#[derive(Debug, PartialEq, Eq)]
pub enum Value {
    /// Represents the absence of a value.
    Empty,
    Unit,
    Bool(bool),
    Char(char),
    Number(Number),
    String(String),
    Bytes(Vec<u8>),
    Option(Option<Box<Value>>),
    List(Vec<Value>),
    Dict(ValueMap),
    Tuple(Vec<Value>),
    UnitStruct(String),
    Struct(Option<String>, FieldMap),
    NamedTuple(String, Vec<Value>),
}

/// The views of every element of a vector of values.
pub open spec fn views_of(l: Seq<Value>) -> Seq<ValueV>
    decreases l,
{
    if l.len() == 0 {
        Seq::empty()
    } else {
        views_of(l.drop_last()).push(value_view(l.last()))
    }
}

/// The views of every key/value pair of a value-keyed map.
pub open spec fn pairs_view(l: Seq<(Value, Value)>) -> Seq<(ValueV, ValueV)>
    decreases l,
{
    if l.len() == 0 {
        Seq::empty()
    } else {
        pairs_view(l.drop_last()).push((value_view(l.last().0), value_view(l.last().1)))
    }
}

/// The views of every field of a string-keyed map.
pub open spec fn fields_view(l: Seq<(String, Value)>) -> Seq<(Seq<char>, ValueV)>
    decreases l,
{
    if l.len() == 0 {
        Seq::empty()
    } else {
        fields_view(l.drop_last()).push((l.last().0@, value_view(l.last().1)))
    }
}

pub broadcast proof fn lemma_views_of_len(l: Seq<Value>)
    ensures
        (#[trigger] views_of(l)).len() == l.len(),
    decreases l.len(),
{
    if l.len() > 0 {
        lemma_views_of_len(l.drop_last());
    }
}

pub broadcast proof fn lemma_views_of_index(l: Seq<Value>, i: int)
    requires
        0 <= i < l.len(),
    ensures
        #[trigger] views_of(l)[i] == value_view(l[i]),
    decreases l.len(),
{
    lemma_views_of_len(l);
    if l.len() > 0 && i < l.len() - 1 {
        lemma_views_of_index(l.drop_last(), i);
    }
}

pub broadcast proof fn lemma_pairs_view_len(l: Seq<(Value, Value)>)
    ensures
        (#[trigger] pairs_view(l)).len() == l.len(),
    decreases l.len(),
{
    if l.len() > 0 {
        lemma_pairs_view_len(l.drop_last());
    }
}

pub broadcast proof fn lemma_pairs_view_index(l: Seq<(Value, Value)>, i: int)
    requires
        0 <= i < l.len(),
    ensures
        #[trigger] pairs_view(l)[i] == (value_view(l[i].0), value_view(l[i].1)),
    decreases l.len(),
{
    lemma_pairs_view_len(l);
    if l.len() > 0 && i < l.len() - 1 {
        lemma_pairs_view_index(l.drop_last(), i);
    }
}

pub broadcast proof fn lemma_fields_view_len(l: Seq<(String, Value)>)
    ensures
        (#[trigger] fields_view(l)).len() == l.len(),
    decreases l.len(),
{
    if l.len() > 0 {
        lemma_fields_view_len(l.drop_last());
    }
}

pub broadcast proof fn lemma_fields_view_index(l: Seq<(String, Value)>, i: int)
    requires
        0 <= i < l.len(),
    ensures
        #[trigger] fields_view(l)[i] == (l[i].0@, value_view(l[i].1)),
    decreases l.len(),
{
    lemma_fields_view_len(l);
    if l.len() > 0 && i < l.len() - 1 {
        lemma_fields_view_index(l.drop_last(), i);
    }
}

pub broadcast group group_value_views {
    lemma_views_of_len,
    lemma_views_of_index,
    lemma_pairs_view_len,
    lemma_pairs_view_index,
    lemma_fields_view_len,
    lemma_fields_view_index,
}

pub open spec fn value_view(v: Value) -> ValueV
    decreases v,
{
    match v {
        Value::Empty => ValueV::Empty,
        Value::Unit => ValueV::Unit,
        Value::Bool(b) => ValueV::Bool(b),
        Value::Char(c) => ValueV::Char(c),
        Value::Number(n) => ValueV::Number(n),
        Value::String(s) => ValueV::String(s@),
        Value::Bytes(b) => ValueV::Bytes(b@),
        Value::Option(o) => ValueV::Option(
            match o {
                Some(b) => Some(Box::new(value_view(*b))),
                None => None,
            },
        ),
        Value::List(l) => ValueV::List(views_of(l@)),
        Value::Dict(m) => ValueV::Dict(pairs_view(m.0@)),
        Value::Tuple(l) => ValueV::Tuple(views_of(l@)),
        Value::UnitStruct(n) => ValueV::UnitStruct(n@),
        Value::Struct(n, m) => ValueV::Struct(
            match n {
                Some(s) => Some(s@),
                None => None,
            },
            fields_view(m.0@),
        ),
        Value::NamedTuple(n, l) => ValueV::NamedTuple(n@, views_of(l@)),
    }
}

impl View for Value {
    type V = ValueV;

    open spec fn view(&self) -> ValueV {
        value_view(*self)
    }
}

impl View for ValueMap {
    type V = Seq<(ValueV, ValueV)>;

    open spec fn view(&self) -> Seq<(ValueV, ValueV)> {
        pairs_view(self.0@)
    }
}

impl View for FieldMap {
    type V = Seq<(Seq<char>, ValueV)>;

    open spec fn view(&self) -> Seq<(Seq<char>, ValueV)> {
        fields_view(self.0@)
    }
}

impl From<&str> for Value {
    fn from(value: &str) -> (r: Self) {
        Value::String(value.to_owned())
    }
}

impl vstd::std_specs::convert::FromSpecImpl<&str> for Value {
    /// The string conversion claims no specification: a specification-level
    /// `String` cannot be built from a `&str` view here.
    open spec fn obeys_from_spec() -> bool {
        false
    }

    open spec fn from_spec(value: &str) -> Self {
        vstd::pervasive::arbitrary()
    }
}

impl From<i32> for Value {
    fn from(value: i32) -> (r: Self) {
        Value::Number(Number::I32(value))
    }
}

impl vstd::std_specs::convert::FromSpecImpl<i32> for Value {
    open spec fn obeys_from_spec() -> bool {
        true
    }

    open spec fn from_spec(value: i32) -> Self {
        Value::Number(Number::I32(value))
    }
}

impl Value {
    pub fn as_bool(&self) -> (r: Option<&bool>)
        ensures
            r is Some <==> self@ is Bool,
            r is Some ==> self@ == ValueV::Bool(*r->0),
    {
        if let Value::Bool(v) = self {
            Some(v)
        } else {
            None
        }
    }

    pub fn as_str(&self) -> (r: Option<&str>)
        ensures
            r is Some <==> self@ is String,
            r is Some ==> self@ == ValueV::String(r->0@),
    {
        if let Value::String(v) = self {
            Some(v.as_str())
        } else {
            None
        }
    }

    pub fn as_number(&self) -> (r: Option<&Number>)
        ensures
            r is Some <==> self@ is Number,
            r is Some ==> self@ == ValueV::Number(*r->0),
    {
        if let Value::Number(v) = self {
            Some(v)
        } else {
            None
        }
    }

    pub fn as_struct(&self) -> (r: Option<(&Option<String>, &FieldMap)>)
        ensures
            r is Some <==> self@ is Struct,
            r is Some ==> self@ == ValueV::Struct(
                match *(r->0).0 {
                    Some(s) => Some(s@),
                    None => None,
                },
                (r->0).1@,
            ),
    {
        if let Value::Struct(name, v) = self {
            Some((name, v))
        } else {
            None
        }
    }

    pub fn as_list(&self) -> (r: Option<&Vec<Value>>)
        ensures
            r is Some <==> self@ is List,
            r is Some ==> self@ == ValueV::List(views_of(r->0@)),
    {
        if let Value::List(v) = self {
            Some(v)
        } else {
            None
        }
    }

    pub fn as_tuple(&self) -> (r: Option<&Vec<Value>>)
        ensures
            r is Some <==> self@ is Tuple,
            r is Some ==> self@ == ValueV::Tuple(views_of(r->0@)),
    {
        if let Value::Tuple(v) = self {
            Some(v)
        } else {
            None
        }
    }

    pub fn as_named_tuple(&self) -> (r: Option<(&String, &Vec<Value>)>)
        ensures
            r is Some <==> self@ is NamedTuple,
            r is Some ==> self@ == ValueV::NamedTuple((r->0).0@, views_of((r->0).1@)),
    {
        if let Value::NamedTuple(name, v) = self {
            Some((name, v))
        } else {
            None
        }
    }

    /// Whether this value is `Empty`, the explicit absence of a value.
    pub fn is_empty(&self) -> (r: bool)
        ensures
            r <==> self@ is Empty,
    {
        matches!(self, Value::Empty)
    }

    /// Whether this value is `Option(None)`, the serialized form of null.
    pub fn is_null(&self) -> (r: bool)
        ensures
            r <==> self@ == ValueV::Option(None),
    {
        matches!(self, Value::Option(None))
    }
}

} // verus!
