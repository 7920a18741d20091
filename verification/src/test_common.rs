//! Small configuration types exercised by the test suite, with shape
//! descriptions for the schema generator.

use vstd::prelude::*;
use vstd::string::StringExecFns;

use crate::gen_schema::{EnumVariantShape, FieldShape, Shape, ShapeDef, VariantDataShape};

verus! {

#[derive(Debug)]
pub struct Complex {
    pub s: String,
}

impl Complex {
    pub fn new(c: &str) -> (r: Self)
        ensures
            r.s@ == c@,
    {
        Complex { s: c.to_owned() }
    }
}

#[derive(Debug)]
pub struct UnitStruct;

#[derive(Debug)]
pub struct TupleStruct(pub String, pub i32);

#[derive(Debug)]
pub struct TupleStruct2 {
    pub t: TupleStruct,
}

#[derive(Debug)]
pub struct NestedTuple(pub bool, pub (bool, bool));

#[derive(Debug)]
pub enum EnumSimple {
    Unit,
    Tuple(String, i32),
    Struct { b: bool, s: String },
}

#[derive(Debug)]
pub enum EnumNested {
    Unit,
    Tuple(String, (Complex, i32)),
    Struct { c: Complex, s: String },
}

#[derive(Debug)]
pub struct ComplexNested {
    pub c: Complex,
    pub opt_c: Option<Box<ComplexNested>>,
    pub opt_e: Option<Box<EnumNested>>,
}

impl ComplexNested {
    pub fn new(c: &str, opt_c: Option<ComplexNested>, opt_e: Option<EnumNested>) -> (r: Self)
        ensures
            r.c.s@ == c@,
            r.opt_c is Some <==> opt_c is Some,
            r.opt_e is Some <==> opt_e is Some,
    {
        ComplexNested {
            c: Complex::new(c),
            opt_c: match opt_c {
                Some(x) => Some(Box::new(x)),
                None => None,
            },
            opt_e: match opt_e {
                Some(x) => Some(Box::new(x)),
                None => None,
            },
        }
    }
}

#[derive(Debug)]
pub struct StructNested {
    pub v: Vec<ComplexNested>,
    pub t: (String, ComplexNested),
    pub m: Vec<(String, ComplexNested)>,
}

#[derive(Debug, Default)]
pub struct DefaultTrait {
    pub x: i32,
}

#[derive(Debug)]
pub struct DefaultCustom {
    pub x: i32,
}

#[derive(Debug, Default)]
pub struct DefaultTraitStruct {
    pub x: i32,
}

#[derive(Debug)]
pub struct DefaultCustomStruct {
    pub x: i32,
}

#[derive(Debug)]
pub enum DefaultTraitEnum {
    A,
    B,
}

impl DefaultTraitEnum {
    /// The reflected shape of this enum: two unit variants.
    pub fn shape() -> (r: Shape)
        ensures
            r.type_identifier@ == "DefaultTraitEnum"@,
            r.def is Enum,
    {
        Shape {
            type_identifier: String::from_str("DefaultTraitEnum"),
            doc: None,
            def: ShapeDef::Enum(
                vec![
                    EnumVariantShape {
                        name: String::from_str("A"),
                        data: VariantDataShape::Unit,
                    },
                    EnumVariantShape {
                        name: String::from_str("B"),
                        data: VariantDataShape::Unit,
                    },
                ],
            ),
        }
    }
}

impl DefaultTraitStruct {
    /// The reflected shape of this struct: one defaulted `i32` field.
    pub fn shape() -> (r: Shape)
        ensures
            r.type_identifier@ == "DefaultTraitStruct"@,
            r.def is Struct,
    {
        Shape {
            type_identifier: String::from_str("DefaultTraitStruct"),
            doc: None,
            def: ShapeDef::Struct(
                vec![
                    FieldShape {
                        name: String::from_str("x"),
                        shape: Shape::scalar("i32"),
                        has_default: true,
                        skipped: false,
                    },
                ],
            ),
        }
    }
}

impl DefaultCustomStruct {
    /// The reflected shape of this struct: one field with a custom default.
    pub fn shape() -> (r: Shape)
        ensures
            r.type_identifier@ == "DefaultCustomStruct"@,
            r.def is Struct,
    {
        Shape {
            type_identifier: String::from_str("DefaultCustomStruct"),
            doc: None,
            def: ShapeDef::Struct(
                vec![
                    FieldShape {
                        name: String::from_str("x"),
                        shape: Shape::scalar("i32"),
                        has_default: true,
                        skipped: false,
                    },
                ],
            ),
        }
    }
}

} // verus!
