//! Generating a structural schema from a reflected description of a Rust
//! type: scalars map to primitive kinds, structs and enums become named
//! definitions referenced from their use sites, and containers recurse into
//! their element shapes.

use vstd::prelude::*;
use vstd::string::StringExecFns;

use crate::number::{str_eq, NumberValueLight};
use crate::value::Value;

verus! {

/// One reflected field of a struct or struct-like variant.
#[derive(Debug)]
pub struct FieldShape {
    pub name: String,
    pub shape: Shape,
    /// Whether the field carries a default.
    pub has_default: bool,
    /// Whether the field is skipped for serialization.
    pub skipped: bool,
}

/// One reflected enum variant.
#[derive(Debug)]
pub struct EnumVariantShape {
    pub name: String,
    pub data: VariantDataShape,
}

/// The payload of a reflected enum variant.
#[derive(Debug)]
pub enum VariantDataShape {
    Unit,
    Tuple(Vec<Shape>),
    Struct(Vec<FieldShape>),
}

/// The definition a reflected type falls under.
#[derive(Debug)]
pub enum ShapeDef {
    /// A scalar, identified by its type name.
    Scalar,
    UnitStruct,
    Struct(Vec<FieldShape>),
    TupleStruct(Vec<Shape>),
    Tuple(Vec<Shape>),
    Enum(Vec<EnumVariantShape>),
    ListOf(Box<Shape>),
    MapOf(Box<Shape>),
    OptionOf(Box<Shape>),
}

/// A reflected description of a Rust type: its identifier, its doc text,
/// and its definition.
#[derive(Debug)]
pub struct Shape {
    pub type_identifier: String,
    pub doc: Option<String>,
    pub def: ShapeDef,
}

impl Shape {
    /// A scalar shape with the given type identifier.
    pub fn scalar(ident: &str) -> (r: Shape)
        ensures
            r.type_identifier@ == ident@,
            r.doc is None,
            r.def is Scalar,
    {
        Shape { type_identifier: ident.to_owned(), doc: None, def: ShapeDef::Scalar }
    }
}

/// A schema or a reference into the definitions table.
#[derive(Debug)]
pub enum RustSchemaOrRef {
    Ref(String),
    Schema(Box<RustSchema>),
}

/// The payload kinds of a generated schema.
#[derive(Debug)]
pub enum RustSchemaKind {
    Unit,
    Boolean,
    Number(NumberValueLight),
    Char,
    String,
    Option(RustSchemaOrRef),
    Array(RustSchemaOrRef),
    Tuple(Vec<RustSchemaOrRef>),
    Dict(RustSchemaOrRef),
    Struct(String, Vec<(String, RustSchemaOrRef)>),
    TupleStruct(String, Vec<RustSchemaOrRef>),
    Enum(String, Vec<(String, EnumVariantKind)>),
}

/// The payload of a generated enum variant schema.
#[derive(Debug)]
pub enum EnumVariantKind {
    Unit,
    Tuple(Vec<RustSchemaOrRef>),
    Struct(Vec<(String, RustSchemaOrRef)>),
}

/// One generated schema: its doc text, its kind, and an optional default.
#[derive(Debug)]
pub struct RustSchema {
    pub description: Option<String>,
    pub kind: RustSchemaKind,
    pub default: Option<Value>,
}

/// A generated schema document: the root plus its definitions table.
#[derive(Debug)]
pub struct RustSchemaRoot {
    pub schema: RustSchemaOrRef,
    pub definitions: Vec<(String, RustSchema)>,
}

/// The schema kind of a scalar type identifier, if it is a known scalar.
pub open spec fn spec_scalar_kind(ident: Seq<char>) -> Option<RustSchemaKind> {
    if ident == "String"@ || ident == "str"@ || ident == "&str"@ {
        Some(RustSchemaKind::String)
    } else if ident == "bool"@ {
        Some(RustSchemaKind::Boolean)
    } else if ident == "u8"@ {
        Some(RustSchemaKind::Number(NumberValueLight::U8))
    } else if ident == "u16"@ {
        Some(RustSchemaKind::Number(NumberValueLight::U16))
    } else if ident == "u32"@ {
        Some(RustSchemaKind::Number(NumberValueLight::U32))
    } else if ident == "u64"@ {
        Some(RustSchemaKind::Number(NumberValueLight::U64))
    } else if ident == "u128"@ {
        Some(RustSchemaKind::Number(NumberValueLight::U128))
    } else if ident == "usize"@ {
        Some(RustSchemaKind::Number(NumberValueLight::USize))
    } else if ident == "i8"@ {
        Some(RustSchemaKind::Number(NumberValueLight::I8))
    } else if ident == "i16"@ {
        Some(RustSchemaKind::Number(NumberValueLight::I16))
    } else if ident == "i32"@ {
        Some(RustSchemaKind::Number(NumberValueLight::I32))
    } else if ident == "i64"@ {
        Some(RustSchemaKind::Number(NumberValueLight::I64))
    } else if ident == "i128"@ {
        Some(RustSchemaKind::Number(NumberValueLight::I128))
    } else if ident == "isize"@ {
        Some(RustSchemaKind::Number(NumberValueLight::ISize))
    } else if ident == "f32"@ {
        Some(RustSchemaKind::Number(NumberValueLight::F32))
    } else if ident == "f64"@ {
        Some(RustSchemaKind::Number(NumberValueLight::F64))
    } else if ident == "char"@ {
        Some(RustSchemaKind::Char)
    } else if ident == "()"@ {
        Some(RustSchemaKind::Unit)
    } else {
        None
    }
}

/// The schema kind of a scalar type identifier.
fn scalar_kind(ident: &str) -> (r: Option<RustSchemaKind>)
    ensures
        r == spec_scalar_kind(ident@),
{
    if str_eq(ident, "String") || str_eq(ident, "str") || str_eq(ident, "&str") {
        Some(RustSchemaKind::String)
    } else if str_eq(ident, "bool") {
        Some(RustSchemaKind::Boolean)
    } else if str_eq(ident, "u8") {
        Some(RustSchemaKind::Number(NumberValueLight::U8))
    } else if str_eq(ident, "u16") {
        Some(RustSchemaKind::Number(NumberValueLight::U16))
    } else if str_eq(ident, "u32") {
        Some(RustSchemaKind::Number(NumberValueLight::U32))
    } else if str_eq(ident, "u64") {
        Some(RustSchemaKind::Number(NumberValueLight::U64))
    } else if str_eq(ident, "u128") {
        Some(RustSchemaKind::Number(NumberValueLight::U128))
    } else if str_eq(ident, "usize") {
        Some(RustSchemaKind::Number(NumberValueLight::USize))
    } else if str_eq(ident, "i8") {
        Some(RustSchemaKind::Number(NumberValueLight::I8))
    } else if str_eq(ident, "i16") {
        Some(RustSchemaKind::Number(NumberValueLight::I16))
    } else if str_eq(ident, "i32") {
        Some(RustSchemaKind::Number(NumberValueLight::I32))
    } else if str_eq(ident, "i64") {
        Some(RustSchemaKind::Number(NumberValueLight::I64))
    } else if str_eq(ident, "i128") {
        Some(RustSchemaKind::Number(NumberValueLight::I128))
    } else if str_eq(ident, "isize") {
        Some(RustSchemaKind::Number(NumberValueLight::ISize))
    } else if str_eq(ident, "f32") {
        Some(RustSchemaKind::Number(NumberValueLight::F32))
    } else if str_eq(ident, "f64") {
        Some(RustSchemaKind::Number(NumberValueLight::F64))
    } else if str_eq(ident, "char") {
        Some(RustSchemaKind::Char)
    } else if str_eq(ident, "()") {
        Some(RustSchemaKind::Unit)
    } else {
        None
    }
}

/// Why a shape description yields no schema.
#[derive(Clone, Copy, Debug, PartialEq, Eq, Structural)]
pub struct UnknownScalar;

/// The reference key of a named definition.
pub open spec fn spec_ref_of(name: Seq<char>) -> Seq<char> {
    "#/$defs/"@ + name
}

/// The reference key of a named definition.
fn ref_of(name: &String) -> (r: String)
    ensures
        r@ == spec_ref_of(name@),
{
    String::from_str("#/$defs/").concat(name.as_str())
}

/// Whether every scalar identifier a shape mentions is a known scalar: the
/// generator succeeds exactly on such shapes.
pub open spec fn spec_shape_wf(s: Shape) -> bool
    decreases s, 0int,
{
    match s.def {
        ShapeDef::Scalar => spec_scalar_kind(s.type_identifier@) is Some,
        ShapeDef::UnitStruct => true,
        ShapeDef::Struct(fields) => spec_fields_wf(fields@, 0),
        ShapeDef::TupleStruct(items) => spec_items_wf(items@, 0),
        ShapeDef::Tuple(items) => spec_items_wf(items@, 0),
        ShapeDef::Enum(variants) => spec_variants_wf(variants@, 0),
        ShapeDef::ListOf(t) => spec_shape_wf(*t),
        ShapeDef::MapOf(t) => spec_shape_wf(*t),
        ShapeDef::OptionOf(t) => spec_shape_wf(*t),
    }
}

/// Well-formedness of the non-skipped fields from `i` on.
pub open spec fn spec_fields_wf(fields: Seq<FieldShape>, i: int) -> bool
    decreases fields, 1int, fields.len() - i,
{
    if i < 0 || i >= fields.len() {
        true
    } else if fields[i].skipped {
        spec_fields_wf(fields, i + 1)
    } else {
        spec_shape_wf(fields[i].shape) && spec_fields_wf(fields, i + 1)
    }
}

/// Well-formedness of the item shapes from `i` on.
pub open spec fn spec_items_wf(items: Seq<Shape>, i: int) -> bool
    decreases items, 1int, items.len() - i,
{
    if i < 0 || i >= items.len() {
        true
    } else {
        spec_shape_wf(items[i]) && spec_items_wf(items, i + 1)
    }
}

/// Well-formedness of the variant payload shapes from `i` on.
pub open spec fn spec_variants_wf(variants: Seq<EnumVariantShape>, i: int) -> bool
    decreases variants, 1int, variants.len() - i,
{
    if i < 0 || i >= variants.len() {
        true
    } else {
        let ok = match variants[i].data {
            VariantDataShape::Unit => true,
            VariantDataShape::Tuple(items) => spec_items_wf(items@, 0),
            VariantDataShape::Struct(fields) => spec_fields_wf(fields@, 0),
        };
        ok && spec_variants_wf(variants, i + 1)
    }
}

/// What the generated root looks like for a given shape: scalars and
/// containers yield an inline schema of the corresponding kind, named types
/// yield a reference to their definition.
pub open spec fn spec_top_matches(r: RustSchemaOrRef, s: Shape) -> bool {
    match s.def {
        ShapeDef::Scalar => r matches RustSchemaOrRef::Schema(b) && Some((*b).kind)
            == spec_scalar_kind(s.type_identifier@),
        ShapeDef::UnitStruct => r matches RustSchemaOrRef::Ref(k) && k@ == spec_ref_of(
            s.type_identifier@,
        ),
        ShapeDef::Struct(_) => r matches RustSchemaOrRef::Ref(k) && k@ == spec_ref_of(
            s.type_identifier@,
        ),
        ShapeDef::TupleStruct(_) => r matches RustSchemaOrRef::Ref(k) && k@ == spec_ref_of(
            s.type_identifier@,
        ),
        ShapeDef::Enum(_) => r matches RustSchemaOrRef::Ref(k) && k@ == spec_ref_of(
            s.type_identifier@,
        ),
        ShapeDef::Tuple(items) => r matches RustSchemaOrRef::Schema(b) && (*b).kind matches
            RustSchemaKind::Tuple(rs) && rs@.len() == items@.len(),
        ShapeDef::ListOf(_) => r matches RustSchemaOrRef::Schema(b) && (*b).kind is Array,
        ShapeDef::MapOf(_) => r matches RustSchemaOrRef::Schema(b) && (*b).kind is Dict,
        ShapeDef::OptionOf(_) => r matches RustSchemaOrRef::Schema(b) && (*b).kind is Option,
    }
}

/// Whether a shape lands in the definitions table under its own name.
pub open spec fn spec_is_named(s: Shape) -> bool {
    s.def is UnitStruct || s.def is Struct || s.def is TupleStruct || s.def is Enum
}

/// The names of the non-skipped fields from `i` on, in declaration order.
pub open spec fn spec_field_names(fields: Seq<FieldShape>, i: int) -> Seq<Seq<char>>
    decreases fields.len() - i,
{
    if i < 0 || i >= fields.len() {
        Seq::empty()
    } else if fields[i].skipped {
        spec_field_names(fields, i + 1)
    } else {
        seq![fields[i].name@] + spec_field_names(fields, i + 1)
    }
}

/// The name views of generated field entries.
pub open spec fn entry_names(es: Seq<(String, RustSchemaOrRef)>) -> Seq<Seq<char>> {
    Seq::new(es.len(), |i: int| es[i].0@)
}

/// One-level correspondence of a generated variant payload with its shape.
pub open spec fn variant_data_matches(d: VariantDataShape, k: EnumVariantKind) -> bool {
    match d {
        VariantDataShape::Unit => k is Unit,
        VariantDataShape::Tuple(items) => k matches EnumVariantKind::Tuple(rs) && rs@.len()
            == items@.len(),
        VariantDataShape::Struct(fields) => k matches EnumVariantKind::Struct(es) && entry_names(
            es@,
        ) == spec_field_names(fields@, 0),
    }
}

/// The generated variants correspond, name for name and payload for payload,
/// to the variant shapes from `i` on.
pub open spec fn variants_correspond(
    vs: Seq<EnumVariantShape>,
    out: Seq<(String, EnumVariantKind)>,
    i: int,
) -> bool
    decreases vs.len() - i,
{
    if i < 0 || i >= vs.len() {
        out.len() == 0
    } else {
        &&& out.len() > 0
        &&& out[0].0@ == vs[i].name@
        &&& variant_data_matches(vs[i].data, out[0].1)
        &&& variants_correspond(vs, out.drop_first(), i + 1)
    }
}

/// What the definition registered for a named shape holds: the shape's own
/// name, its doc text, and entries corresponding one-for-one to its
/// non-skipped fields or its variants.
pub open spec fn def_matches_shape(d: RustSchema, s: Shape) -> bool {
    let doc_ok = match (d.description, s.doc) {
        (Some(a), Some(b)) => a@ == b@,
        (None, None) => true,
        _ => false,
    };
    doc_ok && match s.def {
        ShapeDef::UnitStruct => d.kind matches RustSchemaKind::Struct(name, es) && name@
            == s.type_identifier@ && es@.len() == 0,
        ShapeDef::Struct(fields) => d.kind matches RustSchemaKind::Struct(name, es) && name@
            == s.type_identifier@ && entry_names(es@) == spec_field_names(fields@, 0),
        ShapeDef::TupleStruct(items) => d.kind matches RustSchemaKind::TupleStruct(name, rs)
            && name@ == s.type_identifier@ && rs@.len() == items@.len(),
        ShapeDef::Enum(variants) => d.kind matches RustSchemaKind::Enum(name, out) && name@
            == s.type_identifier@ && out@.len() == variants@.len() && variants_correspond(
            variants@,
            out@,
            0,
        ),
        _ => true,
    }
}

/// Generates the schema of one shape, appending any named definitions it
/// produces to the table.
fn schema_for_shape(shape: &Shape, defs: Vec<(String, RustSchema)>) -> (r: (
    Result<RustSchemaOrRef, UnknownScalar>,
    Vec<(String, RustSchema)>,
))
    ensures
        (r.0 is Ok) == spec_shape_wf(*shape),
        r.0 matches Ok(root) ==> spec_top_matches(root, *shape),
        r.1@.len() >= defs@.len(),
        r.1@.subrange(0, defs@.len() as int) == defs@,
        r.0 is Ok && spec_is_named(*shape) ==> r.1@.len() > defs@.len() && r.1@.last().0@
            == spec_ref_of(shape.type_identifier@) && def_matches_shape(r.1@.last().1, *shape),
    decreases *shape, 0int,
{
    let doc = match &shape.doc {
        Some(d) => Some(d.clone()),
        None => None,
    };
    match &shape.def {
        ShapeDef::Scalar => {
            match scalar_kind(shape.type_identifier.as_str()) {
                None => (Err(UnknownScalar), defs),
                Some(kind) => (
                    (
                        Ok(
                            RustSchemaOrRef::Schema(
                                Box::new(RustSchema { description: doc, kind, default: None }),
                            ),
                        )
                    ),
                    defs,
                ),
            }
        },
        ShapeDef::UnitStruct => {
            let key = ref_of(&shape.type_identifier);
            let schema = RustSchema {
                description: doc,
                kind: RustSchemaKind::Struct(shape.type_identifier.clone(), Vec::new()),
                default: None,
            };
            let mut defs = defs;
            let ghost pre = defs@;
            defs.push((key.clone(), schema));
            proof {
                assert(defs@.subrange(0, pre.len() as int) =~= pre);
            }
            ((Ok(RustSchemaOrRef::Ref(key))), defs)
        },
        ShapeDef::Struct(fields) => {
            proof {
                assert(decreases_to!(*shape => shape.def));
                assert(decreases_to!(shape.def => shape.def->Struct_0));
            }
            let (entries, defs) = fields_for(fields, defs);
            match entries {
                Err(e) => (Err(e), defs),
                Ok(entries) => {
                    let key = ref_of(&shape.type_identifier);
                    let schema = RustSchema {
                        description: doc,
                        kind: RustSchemaKind::Struct(shape.type_identifier.clone(), entries),
                        default: None,
                    };
                    let mut defs = defs;
                    let ghost pre = defs@;
                    defs.push((key.clone(), schema));
                    proof {
                        assert(defs@.subrange(0, pre.len() as int) =~= pre);
                    }
                    ((Ok(RustSchemaOrRef::Ref(key))), defs)
                },
            }
        },
        ShapeDef::TupleStruct(items) => {
            proof {
                assert(decreases_to!(*shape => shape.def));
                assert(decreases_to!(shape.def => shape.def->TupleStruct_0));
            }
            let (rs, defs) = items_for(items, defs);
            match rs {
                Err(e) => (Err(e), defs),
                Ok(rs) => {
                    let key = ref_of(&shape.type_identifier);
                    let schema = RustSchema {
                        description: doc,
                        kind: RustSchemaKind::TupleStruct(shape.type_identifier.clone(), rs),
                        default: None,
                    };
                    let mut defs = defs;
                    let ghost pre = defs@;
                    defs.push((key.clone(), schema));
                    proof {
                        assert(defs@.subrange(0, pre.len() as int) =~= pre);
                    }
                    ((Ok(RustSchemaOrRef::Ref(key))), defs)
                },
            }
        },
        ShapeDef::Tuple(items) => {
            proof {
                assert(decreases_to!(*shape => shape.def));
                assert(decreases_to!(shape.def => shape.def->Tuple_0));
            }
            let (rs, defs) = items_for(items, defs);
            match rs {
                Err(e) => (Err(e), defs),
                Ok(rs) => (
                    (
                        Ok(
                            RustSchemaOrRef::Schema(
                                Box::new(
                                    RustSchema {
                                        description: doc,
                                        kind: RustSchemaKind::Tuple(rs),
                                        default: None,
                                    },
                                ),
                            ),
                        )
                    ),
                    defs,
                ),
            }
        },
        ShapeDef::Enum(variants) => {
            proof {
                assert(decreases_to!(*shape => shape.def));
                assert(decreases_to!(shape.def => shape.def->Enum_0));
            }
            let (vs, defs) = variants_for(variants, defs);
            match vs {
                Err(e) => (Err(e), defs),
                Ok(vs) => {
                    let key = ref_of(&shape.type_identifier);
                    let schema = RustSchema {
                        description: doc,
                        kind: RustSchemaKind::Enum(shape.type_identifier.clone(), vs),
                        default: None,
                    };
                    let mut defs = defs;
                    let ghost pre = defs@;
                    defs.push((key.clone(), schema));
                    proof {
                        assert(defs@.subrange(0, pre.len() as int) =~= pre);
                    }
                    ((Ok(RustSchemaOrRef::Ref(key))), defs)
                },
            }
        },
        ShapeDef::ListOf(t) => {
            proof {
                assert(decreases_to!(*shape => shape.def));
                assert(decreases_to!(shape.def => shape.def->ListOf_0));
            }
            let (inner, defs) = schema_for_shape(t, defs);
            match inner {
                Err(e) => (Err(e), defs),
                Ok(inner) => (
                    (
                        Ok(
                            RustSchemaOrRef::Schema(
                                Box::new(
                                    RustSchema {
                                        description: doc,
                                        kind: RustSchemaKind::Array(inner),
                                        default: None,
                                    },
                                ),
                            ),
                        )
                    ),
                    defs,
                ),
            }
        },
        ShapeDef::MapOf(t) => {
            proof {
                assert(decreases_to!(*shape => shape.def));
                assert(decreases_to!(shape.def => shape.def->MapOf_0));
            }
            let (inner, defs) = schema_for_shape(t, defs);
            match inner {
                Err(e) => (Err(e), defs),
                Ok(inner) => (
                    (
                        Ok(
                            RustSchemaOrRef::Schema(
                                Box::new(
                                    RustSchema {
                                        description: doc,
                                        kind: RustSchemaKind::Dict(inner),
                                        default: None,
                                    },
                                ),
                            ),
                        )
                    ),
                    defs,
                ),
            }
        },
        ShapeDef::OptionOf(t) => {
            proof {
                assert(decreases_to!(*shape => shape.def));
                assert(decreases_to!(shape.def => shape.def->OptionOf_0));
            }
            let (inner, defs) = schema_for_shape(t, defs);
            match inner {
                Err(e) => (Err(e), defs),
                Ok(inner) => (
                    (
                        Ok(
                            RustSchemaOrRef::Schema(
                                Box::new(
                                    RustSchema {
                                        description: doc,
                                        kind: RustSchemaKind::Option(inner),
                                        default: None,
                                    },
                                ),
                            ),
                        )
                    ),
                    defs,
                ),
            }
        },
    }
}

/// Generates the entries of a struct's non-skipped fields.
fn fields_for(fields: &Vec<FieldShape>, defs: Vec<(String, RustSchema)>) -> (r: (
    Result<Vec<(String, RustSchemaOrRef)>, UnknownScalar>,
    Vec<(String, RustSchema)>,
))
    ensures
        (r.0 is Ok) == spec_fields_wf(fields@, 0),
        r.0 matches Ok(es) ==> entry_names(es@) == spec_field_names(fields@, 0),
        r.1@.len() >= defs@.len(),
        r.1@.subrange(0, defs@.len() as int) == defs@,
    decreases fields@, 1int,
{
    fields_for_from(fields, defs, 0)
}

fn fields_for_from(fields: &Vec<FieldShape>, defs: Vec<(String, RustSchema)>, i: usize) -> (r: (
    Result<Vec<(String, RustSchemaOrRef)>, UnknownScalar>,
    Vec<(String, RustSchema)>,
))
    requires
        i <= fields.len(),
    ensures
        (r.0 is Ok) == spec_fields_wf(fields@, i as int),
        r.0 matches Ok(es) ==> entry_names(es@) == spec_field_names(fields@, i as int),
        r.1@.len() >= defs@.len(),
        r.1@.subrange(0, defs@.len() as int) == defs@,
    decreases fields@, 0int, fields@.len() - i,
{
    if i >= fields.len() {
        proof {
            assert(defs@.subrange(0, defs@.len() as int) =~= defs@);
        }
        return (Ok(Vec::new()), defs);
    }
    if fields[i].skipped {
        return fields_for_from(fields, defs, i + 1);
    }
    proof {
        assert(decreases_to!(fields@ => fields@[i as int]));
        assert(decreases_to!(fields@[i as int] => fields@[i as int].shape));
    }
    let ghost d0 = defs@;
    let (one, defs) = schema_for_shape(&fields[i].shape, defs);
    match one {
        Err(e) => {
            proof {
                assert(!spec_shape_wf(fields@[i as int].shape));
            }
            (Err(e), defs)
        },
        Ok(one) => {
            let ghost d1 = defs@;
            let (rest, defs) = fields_for_from(fields, defs, i + 1);
            proof {
                assert(defs@.subrange(0, d0.len() as int) =~= d1.subrange(
                    0,
                    d0.len() as int,
                ));
            }
            match rest {
                Err(e) => (Err(e), defs),
                Ok(mut rest) => {
                    rest.insert(0, (fields[i].name.clone(), one));
                    (Ok(rest), defs)
                },
            }
        },
    }
}

/// Generates the schemas of a list of item shapes.
fn items_for(items: &Vec<Shape>, defs: Vec<(String, RustSchema)>) -> (r: (
    Result<Vec<RustSchemaOrRef>, UnknownScalar>,
    Vec<(String, RustSchema)>,
))
    ensures
        (r.0 is Ok) == spec_items_wf(items@, 0),
        r.0 matches Ok(rs) ==> rs@.len() == items@.len(),
        r.1@.len() >= defs@.len(),
        r.1@.subrange(0, defs@.len() as int) == defs@,
    decreases items@, 1int,
{
    items_for_from(items, defs, 0)
}

fn items_for_from(items: &Vec<Shape>, defs: Vec<(String, RustSchema)>, i: usize) -> (r: (
    Result<Vec<RustSchemaOrRef>, UnknownScalar>,
    Vec<(String, RustSchema)>,
))
    requires
        i <= items.len(),
    ensures
        (r.0 is Ok) == spec_items_wf(items@, i as int),
        r.0 matches Ok(rs) ==> rs@.len() == items@.len() - i,
        r.1@.len() >= defs@.len(),
        r.1@.subrange(0, defs@.len() as int) == defs@,
    decreases items@, 0int, items@.len() - i,
{
    if i >= items.len() {
        proof {
            assert(defs@.subrange(0, defs@.len() as int) =~= defs@);
        }
        return (Ok(Vec::new()), defs);
    }
    proof {
        assert(decreases_to!(items@ => items@[i as int]));
    }
    let ghost d0 = defs@;
    let (one, defs) = schema_for_shape(&items[i], defs);
    match one {
        Err(e) => (Err(e), defs),
        Ok(one) => {
            let ghost d1 = defs@;
            let (rest, defs) = items_for_from(items, defs, i + 1);
            proof {
                assert(defs@.subrange(0, d0.len() as int) =~= d1.subrange(
                    0,
                    d0.len() as int,
                ));
            }
            match rest {
                Err(e) => (Err(e), defs),
                Ok(mut rest) => {
                    rest.insert(0, one);
                    (Ok(rest), defs)
                },
            }
        },
    }
}

/// Generates the variant schemas of an enum.
fn variants_for(variants: &Vec<EnumVariantShape>, defs: Vec<(String, RustSchema)>) -> (r: (
    Result<Vec<(String, EnumVariantKind)>, UnknownScalar>,
    Vec<(String, RustSchema)>,
))
    ensures
        (r.0 is Ok) == spec_variants_wf(variants@, 0),
        r.0 matches Ok(out) ==> out@.len() == variants@.len() && variants_correspond(
            variants@,
            out@,
            0,
        ),
        r.1@.len() >= defs@.len(),
        r.1@.subrange(0, defs@.len() as int) == defs@,
    decreases variants@, 1int,
{
    variants_for_from(variants, defs, 0)
}

fn variants_for_from(
    variants: &Vec<EnumVariantShape>,
    defs: Vec<(String, RustSchema)>,
    i: usize,
) -> (r: (Result<Vec<(String, EnumVariantKind)>, UnknownScalar>, Vec<(String, RustSchema)>))
    requires
        i <= variants.len(),
    ensures
        (r.0 is Ok) == spec_variants_wf(variants@, i as int),
        r.0 matches Ok(out) ==> out@.len() == variants@.len() - i && variants_correspond(
            variants@,
            out@,
            i as int,
        ),
        r.1@.len() >= defs@.len(),
        r.1@.subrange(0, defs@.len() as int) == defs@,
    decreases variants@, 0int, variants@.len() - i,
{
    if i >= variants.len() {
        proof {
            assert(defs@.subrange(0, defs@.len() as int) =~= defs@);
        }
        return (Ok(Vec::new()), defs);
    }
    proof {
        assert(decreases_to!(variants@ => variants@[i as int]));
        assert(decreases_to!(variants@[i as int] => variants@[i as int].data));
    }
    let ghost d0 = defs@;
    let (one, defs): (Result<EnumVariantKind, UnknownScalar>, Vec<(String, RustSchema)>) =
        match &variants[i].data {
        VariantDataShape::Unit => (Ok(EnumVariantKind::Unit), defs),
        VariantDataShape::Tuple(items) => {
            proof {
                assert(decreases_to!(variants@[i as int].data => variants@[i as int].data
                    ->Tuple_0));
            }
            let (rs, defs) = items_for(items, defs);
            match rs {
                Err(e) => (Err(e), defs),
                Ok(rs) => (Ok(EnumVariantKind::Tuple(rs)), defs),
            }
        },
        VariantDataShape::Struct(fields) => {
            proof {
                assert(decreases_to!(variants@[i as int].data => variants@[i as int].data
                    ->Struct_0));
            }
            let (es, defs) = fields_for(fields, defs);
            match es {
                Err(e) => (Err(e), defs),
                Ok(es) => (Ok(EnumVariantKind::Struct(es)), defs),
            }
        },
    };
    proof {
        assert(match one {
            Ok(k) => variant_data_matches(variants@[i as int].data, k),
            Err(_) => true,
        });
    }
    match one {
        Err(e) => (Err(e), defs),
        Ok(kind) => {
            let ghost d1 = defs@;
            let (rest, defs) = variants_for_from(variants, defs, i + 1);
            proof {
                assert(defs@.subrange(0, d0.len() as int) =~= d1.subrange(
                    0,
                    d0.len() as int,
                ));
            }
            match rest {
                Err(e) => (Err(e), defs),
                Ok(mut rest) => {
                    let ghost pre = rest@;
                    rest.insert(0, (variants[i].name.clone(), kind));
                    proof {
                        assert(rest@[0].0@ == variants@[i as int].name@);
                        assert(rest@[0].1 == kind);
                        assert(rest@.drop_first() =~= pre);
                    }
                    (Ok(rest), defs)
                },
            }
        },
    }
}

/// Generates a schema document from a reflected type description: succeeds
/// exactly when every scalar the shape mentions is known, with named types
/// referenced through the definitions table.
pub fn schema_for(shape: &Shape) -> (r: Result<RustSchemaRoot, UnknownScalar>)
    ensures
        (r is Ok) == spec_shape_wf(*shape),
        r matches Ok(root) ==> spec_top_matches(root.schema, *shape),
        r matches Ok(root) ==> (spec_is_named(*shape) ==> root.definitions@.len() > 0
            && root.definitions@.last().0@ == spec_ref_of(shape.type_identifier@)
            && def_matches_shape(root.definitions@.last().1, *shape)),
{
    let (root, defs) = schema_for_shape(shape, Vec::new());
    match root {
        Err(e) => Err(e),
        Ok(schema) => Ok(RustSchemaRoot { schema, definitions: defs }),
    }
}

} // verus!
