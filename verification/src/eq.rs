//! Structural equality and deep copying for [`Value`] trees, proved against
//! the mathematical view: equality decides view equality, and a copy has the
//! same view as its original.

use vstd::prelude::*;

use crate::value::{fields_view, pairs_view, value_view, views_of, FieldMap, Value, ValueMap, ValueV};

verus! {

broadcast use crate::value::group_value_views;

/// Equality of two byte vectors.
pub fn bytes_eq(a: &Vec<u8>, b: &Vec<u8>) -> (r: bool)
    ensures
        r == (a@ == b@),
{
    if a.len() != b.len() {
        return false;
    }
    let mut i: usize = 0;
    while i < a.len()
        invariant
            0 <= i <= a.len(),
            a.len() == b.len(),
            forall|j: int| 0 <= j < i ==> a@[j] == b@[j],
        decreases a.len() - i,
    {
        if a[i] != b[i] {
            return false;
        }
        i += 1;
    }
    proof {
        assert(a@ =~= b@);
    }
    true
}

/// Structural equality of two values: decides whether the views are equal.
#[verifier::rlimit(100)]
pub fn value_eq(a: &Value, b: &Value) -> (r: bool)
    ensures
        r == (a@ == b@),
    decreases *a,
{
    if let (Value::Empty, Value::Empty) = (a, b) {
        return true;
    }
    if let (Value::Unit, Value::Unit) = (a, b) {
        return true;
    }
    if let (Value::Bool(x), Value::Bool(y)) = (a, b) {
        return *x == *y;
    }
    if let (Value::Char(x), Value::Char(y)) = (a, b) {
        return *x == *y;
    }
    if let (Value::Number(x), Value::Number(y)) = (a, b) {
        return *x == *y;
    }
    if let (Value::String(x), Value::String(y)) = (a, b) {
        return x.eq(y);
    }
    if let (Value::Bytes(x), Value::Bytes(y)) = (a, b) {
        let r = bytes_eq(x, y);
        proof {
            assert(a@ == ValueV::Bytes(x@));
            assert(b@ == ValueV::Bytes(y@));
        }
        return r;
    }
    if let (Value::Option(x), Value::Option(y)) = (a, b) {
        match (x, y) {
            (None, None) => {
                return true;
            },
            (Some(bx), Some(by)) => {
                let r = value_eq(bx, by);
                proof {
                    assert(a@ == ValueV::Option(Some(Box::new(value_view(**bx)))));
                    assert(b@ == ValueV::Option(Some(Box::new(value_view(**by)))));
                }
                return r;
            },
            _ => {
                proof {
                    assert(a@ != b@);
                }
                return false;
            },
        }
    }
    if let (Value::List(x), Value::List(y)) = (a, b) {
        let r = list_eq(x, y);
        proof {
            assert(a@ == ValueV::List(views_of(x@)));
            assert(b@ == ValueV::List(views_of(y@)));
        }
        return r;
    }
    if let (Value::Dict(x), Value::Dict(y)) = (a, b) {
        let r = pairs_eq(x, y);
        proof {
            assert(a@ == ValueV::Dict(pairs_view(x.0@)));
            assert(b@ == ValueV::Dict(pairs_view(y.0@)));
        }
        return r;
    }
    if let (Value::Tuple(x), Value::Tuple(y)) = (a, b) {
        let r = list_eq(x, y);
        proof {
            assert(a@ == ValueV::Tuple(views_of(x@)));
            assert(b@ == ValueV::Tuple(views_of(y@)));
        }
        return r;
    }
    if let (Value::UnitStruct(x), Value::UnitStruct(y)) = (a, b) {
        return x.eq(y);
    }
    if let (Value::Struct(nx, mx), Value::Struct(ny, my)) = (a, b) {
        let names_eq = match (nx, ny) {
            (None, None) => true,
            (Some(sx), Some(sy)) => sx.eq(sy),
            _ => false,
        };
        let r = if names_eq {
            fields_eq(mx, my)
        } else {
            false
        };
        proof {
            assert(a@ == ValueV::Struct(
                match *nx {
                    Some(sx) => Some(sx@),
                    None => None,
                },
                fields_view(mx.0@),
            ));
            assert(b@ == ValueV::Struct(
                match *ny {
                    Some(sy) => Some(sy@),
                    None => None,
                },
                fields_view(my.0@),
            ));
        }
        return r;
    }
    if let (Value::NamedTuple(nx, lx), Value::NamedTuple(ny, ly)) = (a, b) {
        let r = if nx.eq(ny) {
            list_eq(lx, ly)
        } else {
            false
        };
        proof {
            assert(a@ == ValueV::NamedTuple(nx@, views_of(lx@)));
            assert(b@ == ValueV::NamedTuple(ny@, views_of(ly@)));
        }
        return r;
    }
    proof {
        assert(a@ != b@);
    }
    false
}

/// Elementwise structural equality of two value vectors.
pub fn list_eq(a: &Vec<Value>, b: &Vec<Value>) -> (r: bool)
    ensures
        r == (views_of(a@) == views_of(b@)),
    decreases *a,
{
    if a.len() != b.len() {
        proof {
            assert(views_of(a@).len() != views_of(b@).len());
        }
        return false;
    }
    let mut i: usize = 0;
    while i < a.len()
        invariant
            0 <= i <= a.len(),
            a.len() == b.len(),
            forall|j: int| 0 <= j < i ==> views_of(a@)[j] == views_of(b@)[j],
        decreases a.len() - i,
    {
        if !value_eq(&a[i], &b[i]) {
            proof {
                assert(views_of(a@)[i as int] != views_of(b@)[i as int]);
            }
            return false;
        }
        i += 1;
    }
    proof {
        assert(views_of(a@) =~= views_of(b@));
    }
    true
}

/// Pairwise structural equality of two value-keyed entry vectors.
pub fn pairs_eq(a: &ValueMap, b: &ValueMap) -> (r: bool)
    ensures
        r == (a@ == b@),
    decreases *a,
{
    if a.0.len() != b.0.len() {
        proof {
            assert(a@.len() != b@.len());
        }
        return false;
    }
    let mut i: usize = 0;
    while i < a.0.len()
        invariant
            0 <= i <= a.0.len(),
            a.0.len() == b.0.len(),
            forall|j: int| 0 <= j < i ==> a@[j] == b@[j],
        decreases a.0.len() - i,
    {
        if !value_eq(&a.0[i].0, &b.0[i].0) || !value_eq(&a.0[i].1, &b.0[i].1) {
            proof {
                assert(a@[i as int] != b@[i as int]);
            }
            return false;
        }
        i += 1;
    }
    proof {
        assert(a@ =~= b@);
    }
    true
}

/// Pairwise structural equality of two string-keyed entry vectors.
pub fn fields_eq(a: &FieldMap, b: &FieldMap) -> (r: bool)
    ensures
        r == (a@ == b@),
    decreases *a,
{
    if a.0.len() != b.0.len() {
        proof {
            assert(a@.len() != b@.len());
        }
        return false;
    }
    let mut i: usize = 0;
    while i < a.0.len()
        invariant
            0 <= i <= a.0.len(),
            a.0.len() == b.0.len(),
            forall|j: int| 0 <= j < i ==> a@[j] == b@[j],
        decreases a.0.len() - i,
    {
        if !(a.0[i].0 == b.0[i].0) || !value_eq(&a.0[i].1, &b.0[i].1) {
            proof {
                assert(a@[i as int] != b@[i as int]);
            }
            return false;
        }
        i += 1;
    }
    proof {
        assert(a@ =~= b@);
    }
    true
}

/// A deep copy of a byte vector.
pub fn bytes_dup(a: &Vec<u8>) -> (r: Vec<u8>)
    ensures
        r@ == a@,
{
    let mut out: Vec<u8> = Vec::new();
    let mut i: usize = 0;
    while i < a.len()
        invariant
            0 <= i <= a.len(),
            out@ == a@.take(i as int),
        decreases a.len() - i,
    {
        out.push(a[i]);
        proof {
            assert(out@ =~= a@.take(i + 1 as int));
        }
        i += 1;
    }
    proof {
        assert(a@.take(a@.len() as int) =~= a@);
    }
    out
}

/// A deep copy of a value: the copy has the same view as the original.
pub fn value_dup(a: &Value) -> (r: Value)
    ensures
        r@ == a@,
    decreases *a,
{
    match a {
        Value::Empty => Value::Empty,
        Value::Unit => Value::Unit,
        Value::Bool(x) => Value::Bool(*x),
        Value::Char(x) => Value::Char(*x),
        Value::Number(x) => Value::Number(*x),
        Value::String(x) => Value::String(x.clone()),
        Value::Bytes(x) => Value::Bytes(bytes_dup(x)),
        Value::Option(x) => Value::Option(
            match x {
                None => None,
                Some(bx) => Some(Box::new(value_dup(bx))),
            },
        ),
        Value::List(x) => Value::List(list_dup(x)),
        Value::Dict(x) => Value::Dict(pairs_dup(x)),
        Value::Tuple(x) => Value::Tuple(list_dup(x)),
        Value::UnitStruct(x) => Value::UnitStruct(x.clone()),
        Value::Struct(nx, mx) => Value::Struct(
            match nx {
                None => None,
                Some(sx) => Some(sx.clone()),
            },
            fields_dup(mx),
        ),
        Value::NamedTuple(nx, lx) => Value::NamedTuple(nx.clone(), list_dup(lx)),
    }
}

/// A deep copy of a value vector.
pub fn list_dup(a: &Vec<Value>) -> (r: Vec<Value>)
    ensures
        views_of(r@) == views_of(a@),
    decreases *a,
{
    let mut out: Vec<Value> = Vec::new();
    let mut i: usize = 0;
    while i < a.len()
        invariant
            0 <= i <= a.len(),
            out@.len() == i,
            forall|j: int| 0 <= j < i ==> views_of(out@)[j] == views_of(a@)[j],
        decreases a.len() - i,
    {
        out.push(value_dup(&a[i]));
        i += 1;
    }
    proof {
        assert(views_of(out@) =~= views_of(a@));
    }
    out
}

/// A deep copy of a value-keyed entry vector.
pub fn pairs_dup(a: &ValueMap) -> (r: ValueMap)
    ensures
        r@ == a@,
    decreases *a,
{
    let mut out: Vec<(Value, Value)> = Vec::new();
    let mut i: usize = 0;
    while i < a.0.len()
        invariant
            0 <= i <= a.0.len(),
            out@.len() == i,
            forall|j: int| 0 <= j < i ==> pairs_view(out@)[j] == a@[j],
        decreases a.0.len() - i,
    {
        let k = value_dup(&a.0[i].0);
        let v = value_dup(&a.0[i].1);
        out.push((k, v));
        i += 1;
    }
    proof {
        assert(pairs_view(out@) =~= a@);
    }
    ValueMap(out)
}

/// A deep copy of a string-keyed entry vector.
pub fn fields_dup(a: &FieldMap) -> (r: FieldMap)
    ensures
        r@ == a@,
    decreases *a,
{
    let mut out: Vec<(String, Value)> = Vec::new();
    let mut i: usize = 0;
    while i < a.0.len()
        invariant
            0 <= i <= a.0.len(),
            out@.len() == i,
            forall|j: int| 0 <= j < i ==> fields_view(out@)[j] == a@[j],
        decreases a.0.len() - i,
    {
        let k = a.0[i].0.clone();
        let v = value_dup(&a.0[i].1);
        out.push((k, v));
        i += 1;
    }
    proof {
        assert(fields_view(out@) =~= a@);
    }
    FieldMap(out)
}

} // verus!
