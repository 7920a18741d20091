//! The schema compiler: translates a structural schema description into the
//! typed node tree the reconciler works on.
//!
//! The description mirrors what a schema front-end provides: instance types
//! with an optional format hint, declared properties or an extra-properties
//! schema, constant enumerations, array item schemas, intersection and union
//! subschemas, and references into a definitions table. References are
//! recompiled at each site against a recursion budget, so cyclic definition
//! tables are rejected instead of looping.

use vstd::prelude::*;

use crate::eq::value_dup;
use crate::node::{
    container_view, entries_view, node_view, nodes_view, template_view, Node, NodeArray,
    NodeArrayTemplate, NodeBool, NodeContainer, NodeContainerV, NodeEnum, NodeNumber, NodeObject,
    NodeString, NodeValue, NodeV, TemplateV,
};
use crate::node_ops::{container_dup, entries_dup};
use crate::number::{spec_kind_of_hint, NumberValue, NumberValueLight};
use crate::value::Value;

verus! {

broadcast use crate::node_lemmas::group_node_views;

/// The primitive instance types a schema position may declare.
#[derive(Clone, Copy, Debug, PartialEq, Eq, Structural)]
pub enum InstanceKind {
    Null,
    Boolean,
    Object,
    Array,
    Number,
    String,
    Integer,
}

/// One or several declared instance types.
#[derive(Debug)]
pub enum TypesSpec {
    Single(InstanceKind),
    Many(Vec<InstanceKind>),
}

/// One shared item schema, or one schema per array position.
#[derive(Debug)]
pub enum ItemsSpec {
    Single(Box<Schema>),
    Many(Vec<Schema>),
}

/// Descriptive metadata of a schema position.
#[derive(Debug)]
pub struct SchemaMeta {
    pub title: Option<String>,
    pub description: Option<String>,
    pub default: Option<Value>,
}

/// The declared-object facet of a schema: named properties in declaration
/// order, and an optional schema for extra properties.
#[derive(Debug)]
pub struct ObjectSpec {
    pub properties: Vec<(String, Schema)>,
    pub additional: Option<Box<Schema>>,
}

/// A structural schema description.
#[derive(Debug)]
pub struct Schema {
    pub metadata: Option<SchemaMeta>,
    pub instance_type: Option<TypesSpec>,
    /// A numeric format hint such as `"uint8"` or `"float64"`.
    pub format: Option<String>,
    pub object: Option<ObjectSpec>,
    /// The allowed constant values of an enumeration.
    pub enum_values: Option<Vec<Value>>,
    pub items: Option<ItemsSpec>,
    pub all_of: Option<Vec<Schema>>,
    pub one_of: Option<Vec<Schema>>,
    pub any_of: Option<Vec<Schema>>,
    /// The name of a referenced entry of the definitions table.
    pub reference: Option<String>,
}

impl Schema {
    /// A schema with no constraints: it compiles to `Any`.
    pub fn empty() -> (r: Schema)
        ensures
            r.metadata is None,
            r.instance_type is None,
            r.format is None,
            r.object is None,
            r.enum_values is None,
            r.items is None,
            r.all_of is None,
            r.one_of is None,
            r.any_of is None,
            r.reference is None,
    {
        Schema {
            metadata: None,
            instance_type: None,
            format: None,
            object: None,
            enum_values: None,
            items: None,
            all_of: None,
            one_of: None,
            any_of: None,
            reference: None,
        }
    }
}

/// Why a schema fails to compile.
#[derive(Clone, Copy, Debug, PartialEq, Eq, Structural)]
pub enum SchemaError {
    /// Reference chains nest deeper than the recursion budget: the
    /// definitions table is cyclic or unreasonably deep.
    RecursionLimit,
    /// A reference names no entry of the definitions table.
    UnknownReference,
    /// An object schema declares neither properties nor an extra-properties
    /// schema: it constrains nothing an object node could hold.
    EmptyObject,
}

/// Structural union of two compiled nodes, the right side winning: same-kind
/// results are replaced by the right side except objects, whose declared
/// fields are unioned; an unconstrained `Any` side is a neutral element
/// that leaves the other container whole; incompatible kinds fall back to
/// replacement.
pub open spec fn spec_node_merge(a: NodeContainerV, b: NodeContainerV) -> NodeContainerV {
    match (a.node, b.node) {
        (NodeV::Object(e1, t1), NodeV::Object(e2, t2)) => NodeContainerV {
            node: NodeV::Object(
                spec_union_entries(e1, e2, 0),
                if t2 is Some {
                    t2
                } else {
                    t1
                },
            ),
            ..b
        },
        (NodeV::Any, _) => b,
        (_, NodeV::Any) => a,
        (_, _) => b,
    }
}

/// The left entries with the right entries upserted in order.
pub open spec fn spec_union_entries(
    e1: Seq<(Seq<char>, NodeContainerV)>,
    e2: Seq<(Seq<char>, NodeContainerV)>,
    j: int,
) -> Seq<(Seq<char>, NodeContainerV)>
    decreases e2.len() - j,
{
    if j < 0 || j >= e2.len() {
        e1
    } else {
        spec_union_entries(crate::apply::entry_upsert(e1, e2[j].0, e2[j].1), e2, j + 1)
    }
}

/// The node kind compiled for one primitive instance type.
pub open spec fn spec_instance_node(k: InstanceKind, format: Option<Seq<char>>) -> NodeV {
    match k {
        InstanceKind::Null => NodeV::Null,
        InstanceKind::Boolean => NodeV::Bool(None),
        InstanceKind::Object => NodeV::Object(Seq::empty(), None),
        InstanceKind::Array => NodeV::Array(TemplateV::FirstN(Seq::empty()), None),
        InstanceKind::String => NodeV::String(None),
        InstanceKind::Number => NodeV::Number(
            None,
            Seq::empty(),
            match format {
                Some(f) => match spec_kind_of_hint(f) {
                    Some(kind) => kind,
                    None => NumberValueLight::F64,
                },
                None => NumberValueLight::F64,
            },
        ),
        InstanceKind::Integer => NodeV::Number(
            None,
            Seq::empty(),
            match format {
                Some(f) => match spec_kind_of_hint(f) {
                    Some(kind) => kind,
                    None => NumberValueLight::I128,
                },
                None => NumberValueLight::I128,
            },
        ),
    }
}

/// A bare, unmodified container around a node, carrying the given metadata.
pub open spec fn spec_with_meta(node: NodeV, meta: Option<SchemaMeta>) -> NodeContainerV {
    NodeContainerV {
        node,
        default: match meta {
            Some(m) => match m.default {
                Some(d) => Some(crate::value::value_view(d)),
                None => None,
            },
            None => None,
        },
        modified: false,
        removable: false,
        title: match meta {
            Some(m) => match m.title {
                Some(t) => Some(t@),
                None => None,
            },
            None => None,
        },
        description: match meta {
            Some(m) => match m.description {
                Some(d) => Some(d@),
                None => None,
            },
            None => None,
        },
    }
}

/// Index of a definition by name, or `-1`.
pub open spec fn spec_def_index(defs: Seq<(String, Schema)>, name: Seq<char>, i: int) -> int
    decreases defs.len() - i,
{
    if i < 0 || i >= defs.len() {
        -1
    } else if defs[i].0@ == name {
        i
    } else {
        spec_def_index(defs, name, i + 1)
    }
}

/// The container kinds produced for a list of instance types, in order.
pub open spec fn spec_kinds_nodes(
    ks: Seq<InstanceKind>,
    format: Option<Seq<char>>,
    i: int,
) -> Seq<NodeContainerV>
    decreases ks.len() - i,
{
    if i < 0 || i >= ks.len() {
        Seq::empty()
    } else {
        seq![spec_with_meta(spec_instance_node(ks[i], format), None)] + spec_kinds_nodes(
            ks,
            format,
            i + 1,
        )
    }
}

/// The format hint of a schema, as a character sequence.
pub open spec fn spec_format(s: Schema) -> Option<Seq<char>> {
    match s.format {
        Some(f) => Some(f@),
        None => None,
    }
}

/// Compiles the declared properties from position `i` on.
pub open spec fn spec_compile_props(
    defs: Seq<(String, Schema)>,
    props: Seq<(String, Schema)>,
    fuel: nat,
    i: int,
) -> Result<Seq<(Seq<char>, NodeContainerV)>, SchemaError>
    decreases fuel, props, props.len() - i,
{
    if i < 0 || i >= props.len() {
        Ok(Seq::empty())
    } else {
        match spec_compile(defs, props[i].1, fuel) {
            Ok(c) => match spec_compile_props(defs, props, fuel, i + 1) {
                Ok(rest) => Ok(seq![(props[i].0@, c)] + rest),
                Err(e) => Err(e),
            },
            Err(e) => Err(e),
        }
    }
}

/// Compiles a list of subschemas from position `i` on.
pub open spec fn spec_compile_list(
    defs: Seq<(String, Schema)>,
    ss: Seq<Schema>,
    fuel: nat,
    i: int,
) -> Result<Seq<NodeContainerV>, SchemaError>
    decreases fuel, ss, ss.len() - i,
{
    if i < 0 || i >= ss.len() {
        Ok(Seq::empty())
    } else {
        match spec_compile(defs, ss[i], fuel) {
            Ok(c) => match spec_compile_list(defs, ss, fuel, i + 1) {
                Ok(rest) => Ok(seq![c] + rest),
                Err(e) => Err(e),
            },
            Err(e) => Err(e),
        }
    }
}

/// The literal-value containers of a constant enumeration, from `i` on.
pub open spec fn spec_literal_nodes(
    vals: Seq<Value>,
    meta: Option<SchemaMeta>,
    i: int,
) -> Seq<NodeContainerV>
    decreases vals.len() - i,
{
    if i < 0 || i >= vals.len() {
        Seq::empty()
    } else {
        seq![spec_with_meta(NodeV::Value(crate::value::value_view(vals[i])), meta)]
            + spec_literal_nodes(vals, meta, i + 1)
    }
}

/// Folds compiled intersection branches into the accumulator, from `i` on.
pub open spec fn spec_fold_merge(
    acc: NodeContainerV,
    ns: Seq<NodeContainerV>,
    i: int,
) -> NodeContainerV
    decreases ns.len() - i,
{
    if i < 0 || i >= ns.len() {
        acc
    } else {
        spec_fold_merge(spec_node_merge(acc, ns[i]), ns, i + 1)
    }
}

/// Compiles one schema description into a node tree: each facet of the
/// description is compiled and structurally unioned, in order, onto an
/// unconstrained `Any` node.
pub open spec fn spec_compile(defs: Seq<(String, Schema)>, s: Schema, fuel: nat) -> Result<
    NodeContainerV,
    SchemaError,
>
    decreases fuel, s, 2int,
{
    let res = spec_with_meta(NodeV::Any, None);
    let res = match s.instance_type {
        None => res,
        Some(TypesSpec::Single(k)) => spec_node_merge(
            res,
            spec_with_meta(spec_instance_node(k, spec_format(s)), s.metadata),
        ),
        Some(TypesSpec::Many(ks)) => spec_node_merge(
            res,
            spec_with_meta(
                NodeV::Enum(spec_kinds_nodes(ks@, spec_format(s), 0), None),
                s.metadata,
            ),
        ),
    };
    match spec_compile_object(defs, s, res, fuel) {
        Err(e) => Err(e),
        Ok(res) => {
            let res = match s.enum_values {
                None => res,
                Some(vals) => if vals@.len() == 1 {
                    spec_node_merge(
                        res,
                        spec_with_meta(
                            NodeV::Value(crate::value::value_view(vals@[0])),
                            s.metadata,
                        ),
                    )
                } else {
                    spec_node_merge(
                        res,
                        spec_with_meta(
                            NodeV::Enum(spec_literal_nodes(vals@, s.metadata, 0), None),
                            s.metadata,
                        ),
                    )
                },
            };
            match spec_compile_rest(defs, s, res, fuel) {
                Err(e) => Err(e),
                Ok(res) => Ok(res),
            }
        },
    }
}

/// Compiles the object facet, if any, onto the accumulator.
pub open spec fn spec_compile_object(
    defs: Seq<(String, Schema)>,
    s: Schema,
    res: NodeContainerV,
    fuel: nat,
) -> Result<NodeContainerV, SchemaError>
    decreases fuel, s, 1int,
{
    match s.object {
        None => Ok(res),
        Some(o) => match spec_compile_props(defs, o.properties@, fuel, 0) {
            Err(e) => Err(e),
            Ok(entries) => {
                if o.properties@.len() > 0 {
                    Ok(spec_node_merge(
                        res,
                        spec_with_meta(NodeV::Object(entries, None), None),
                    ))
                } else {
                    match o.additional {
                        None => Err(SchemaError::EmptyObject),
                        Some(a) => match spec_compile(defs, *a, fuel) {
                            Err(e) => Err(e),
                            Ok(t) => Ok(spec_node_merge(
                                res,
                                spec_with_meta(
                                    NodeV::Object(entries, Some(Box::new(t))),
                                    None,
                                ),
                            )),
                        },
                    }
                }
            },
        },
    }
}

/// Compiles the array, intersection, union and reference facets, in order,
/// onto the accumulator.
pub open spec fn spec_compile_rest(
    defs: Seq<(String, Schema)>,
    s: Schema,
    res: NodeContainerV,
    fuel: nat,
) -> Result<NodeContainerV, SchemaError>
    decreases fuel, s, 1int,
{
    let items_result = match s.items {
        None => Ok(res),
        Some(ItemsSpec::Single(one)) => match spec_compile(defs, *one, fuel) {
            Err(e) => Err(e),
            Ok(t) => Ok(spec_node_merge(
                res,
                spec_with_meta(
                    NodeV::Array(TemplateV::All(Box::new(t)), None),
                    s.metadata,
                ),
            )),
        },
        Some(ItemsSpec::Many(many)) => match spec_compile_list(defs, many@, fuel, 0) {
            Err(e) => Err(e),
            Ok(ts) => Ok(spec_node_merge(
                res,
                spec_with_meta(NodeV::Array(TemplateV::FirstN(ts), None), s.metadata),
            )),
        },
    };
    match items_result {
        Err(e) => Err(e),
        Ok(res) => {
            let all_result = match s.all_of {
                None => Ok(res),
                Some(branches) => match spec_compile_list(defs, branches@, fuel, 0) {
                    Err(e) => Err(e),
                    Ok(ns) => Ok(spec_fold_merge(res, ns, 0)),
                },
            };
            match all_result {
                Err(e) => Err(e),
                Ok(res) => {
                    let one_result = match s.one_of {
                        None => Ok(res),
                        Some(branches) => match spec_compile_list(defs, branches@, fuel, 0) {
                            Err(e) => Err(e),
                            Ok(ns) => Ok(spec_node_merge(
                                res,
                                spec_with_meta(NodeV::Enum(ns, None), s.metadata),
                            )),
                        },
                    };
                    match one_result {
                        Err(e) => Err(e),
                        Ok(res) => {
                            let any_result = match s.any_of {
                                None => Ok(res),
                                Some(branches) => match spec_compile_list(
                                    defs,
                                    branches@,
                                    fuel,
                                    0,
                                ) {
                                    Err(e) => Err(e),
                                    Ok(ns) => Ok(spec_node_merge(
                                        res,
                                        spec_with_meta(NodeV::Enum(ns, None), s.metadata),
                                    )),
                                },
                            };
                            match any_result {
                                Err(e) => Err(e),
                                Ok(res) => match s.reference {
                                    None => Ok(res),
                                    Some(name) => {
                                        let idx = spec_def_index(defs, name@, 0);
                                        if !(0 <= idx < defs.len()) {
                                            Err(SchemaError::UnknownReference)
                                        } else if fuel == 0 {
                                            Err(SchemaError::RecursionLimit)
                                        } else {
                                            match spec_compile(
                                                defs,
                                                defs[idx].1,
                                                (fuel - 1) as nat,
                                            ) {
                                                Err(e) => Err(e),
                                                Ok(t) => Ok(spec_node_merge(res, t)),
                                            }
                                        }
                                    },
                                },
                            }
                        },
                    }
                },
            }
        },
    }
}

/// Wraps a bare node with the given metadata.
fn with_meta(node: Node, meta: &Option<SchemaMeta>) -> (r: NodeContainer)
    ensures
        r@ == spec_with_meta(node@, *meta),
{
    let (default, title, description) = match meta {
        Some(m) => (
            match &m.default {
                Some(d) => Some(value_dup(d)),
                None => None,
            },
            match &m.title {
                Some(t) => Some(t.clone()),
                None => None,
            },
            match &m.description {
                Some(d) => Some(d.clone()),
                None => None,
            },
        ),
        None => (None, None, None),
    };
    NodeContainer { node, default, modified: false, removable: false, title, description }
}

/// Finds a definition by name.
fn def_find(defs: &Vec<(String, Schema)>, name: &String) -> (r: Option<usize>)
    ensures
        r is Some <==> 0 <= spec_def_index(defs@, name@, 0) < defs.len(),
        r is Some ==> r->0 == spec_def_index(defs@, name@, 0) && r->0 < defs.len(),
{
    let mut i: usize = 0;
    while i < defs.len()
        invariant
            0 <= i <= defs.len(),
            spec_def_index(defs@, name@, 0) == spec_def_index(defs@, name@, i as int),
        decreases defs.len() - i,
    {
        if defs[i].0.eq(name) {
            return Some(i);
        }
        i += 1;
    }
    None
}

/// The left entries with the right entries upserted in order, right side
/// winning per key.
fn union_entries(
    acc: Vec<(String, NodeContainer)>,
    e2: &Vec<(String, NodeContainer)>,
    j: usize,
) -> (r: Vec<(String, NodeContainer)>)
    requires
        j <= e2.len(),
    ensures
        entries_view(r@) == spec_union_entries(entries_view(acc@), entries_view(e2@), j as int),
    decreases e2.len() - j,
{
    if j >= e2.len() {
        return acc;
    }
    let key = &e2[j].0;
    let c = container_dup(&e2[j].1);
    let mut acc = acc;
    let ghost acc0 = entries_view(acc@);
    match crate::apply::entry_find(&acc, key) {
        Some(idx) => {
            let kd = acc[idx].0.clone();
            let ghost pre = entries_view(acc@);
            *vstd::std_specs::vec::vec_index_mut(&mut acc, idx) = (kd, c);
            proof {
                assert(entries_view(acc@) =~= pre.update(
                    idx as int,
                    (pre[idx as int].0, entries_view(e2@)[j as int].1),
                ));
            }
        },
        None => {
            let ghost pre = entries_view(acc@);
            acc.push((key.clone(), c));
            proof {
                assert(entries_view(acc@) =~= pre.push((
                    key@,
                    entries_view(e2@)[j as int].1,
                )));
            }
        },
    }
    proof {
        assert(entries_view(acc@) == crate::apply::entry_upsert(
            acc0,
            entries_view(e2@)[j as int].0,
            entries_view(e2@)[j as int].1,
        ));
    }
    union_entries(acc, e2, j + 1)
}

impl NodeContainer {
    /// Structural union of two compiled nodes, `other` winning: objects
    /// union their declared fields, anything else is replaced by `other`
    /// (with `Any` neutral on either side).
    pub fn merge(&self, other: &NodeContainer) -> (r: NodeContainer)
        ensures
            r@ == spec_node_merge(self@, other@),
    {
        match (&self.node, &other.node) {
            (Node::Object(o1), Node::Object(o2)) => {
                let entries = union_entries(entries_dup(&o1.nodes), &o2.nodes, 0);
                let tpl = match (&o1.template, &o2.template) {
                    (_, Some(t2)) => Some(Box::new(container_dup(t2))),
                    (Some(t1), None) => Some(Box::new(container_dup(t1))),
                    (None, None) => None,
                };
                let b = container_dup(other);
                NodeContainer {
                    node: Node::Object(NodeObject { nodes: entries, template: tpl }),
                    ..b
                }
            },
            (Node::Any, _) => container_dup(other),
            (_, Node::Any) => container_dup(self),
            (_, _) => container_dup(other),
        }
    }
}

/// The node compiled for one primitive instance type, the numeric kind
/// inferred from the format hint.
fn instance_node(k: InstanceKind, format: &Option<String>) -> (r: Node)
    ensures
        r@ == spec_instance_node(
            k,
            match *format {
                Some(f) => Some(f@),
                None => None,
            },
        ),
{
    match k {
        InstanceKind::Null => Node::Null,
        InstanceKind::Boolean => Node::Bool(NodeBool::new()),
        InstanceKind::Object => Node::Object(NodeObject { nodes: Vec::new(), template: None }),
        InstanceKind::Array => {
            let n = Node::Array(
                NodeArray { template: NodeArrayTemplate::FirstN(Vec::new()), values: None },
            );
            proof {
                assert(nodes_view(Seq::<NodeContainer>::empty()) =~= Seq::<
                    NodeContainerV,
                >::empty());
            }
            n
        },
        InstanceKind::String => Node::String(NodeString::new()),
        InstanceKind::Number => {
            let kind = match format {
                Some(f) => match NumberValue::kind_from_str(f.as_str()) {
                    Some(kind) => kind,
                    None => NumberValueLight::F64,
                },
                None => NumberValueLight::F64,
            };
            Node::Number(NodeNumber::new(kind))
        },
        InstanceKind::Integer => {
            let kind = match format {
                Some(f) => match NumberValue::kind_from_str(f.as_str()) {
                    Some(kind) => kind,
                    None => NumberValueLight::I128,
                },
                None => NumberValueLight::I128,
            };
            Node::Number(NodeNumber::new(kind))
        },
    }
}

/// One unmodified container per declared instance type, from `i` on.
fn kinds_nodes(ks: &Vec<InstanceKind>, format: &Option<String>, i: usize) -> (r: Vec<
    NodeContainer,
>)
    requires
        i <= ks.len(),
    ensures
        nodes_view(r@) == spec_kinds_nodes(
            ks@,
            match *format {
                Some(f) => Some(f@),
                None => None,
            },
            i as int,
        ),
    decreases ks.len() - i,
{
    if i >= ks.len() {
        proof {
            assert(nodes_view(Seq::<NodeContainer>::empty()) =~= Seq::<NodeContainerV>::empty());
        }
        return Vec::new();
    }
    let c = with_meta(instance_node(ks[i], format), &None);
    let mut rest = kinds_nodes(ks, format, i + 1);
    rest.insert(0, c);
    proof {
        assert(nodes_view(rest@) =~= seq![c@] + spec_kinds_nodes(
            ks@,
            match *format {
                Some(f) => Some(f@),
                None => None,
            },
            i + 1,
        ));
    }
    rest
}

/// One literal-value container per allowed constant, from `i` on.
fn literal_nodes(vals: &Vec<Value>, meta: &Option<SchemaMeta>, i: usize) -> (r: Vec<NodeContainer>)
    requires
        i <= vals.len(),
    ensures
        nodes_view(r@) == spec_literal_nodes(vals@, *meta, i as int),
    decreases vals.len() - i,
{
    if i >= vals.len() {
        proof {
            assert(nodes_view(Seq::<NodeContainer>::empty()) =~= Seq::<NodeContainerV>::empty());
        }
        return Vec::new();
    }
    let c = with_meta(Node::Value(NodeValue { value: value_dup(&vals[i]) }), meta);
    let mut rest = literal_nodes(vals, meta, i + 1);
    rest.insert(0, c);
    proof {
        assert(nodes_view(rest@) =~= seq![c@] + spec_literal_nodes(vals@, *meta, i + 1));
    }
    rest
}

/// Compiles the declared properties from position `i` on.
fn compile_props(
    defs: &Vec<(String, Schema)>,
    props: &Vec<(String, Schema)>,
    fuel: u64,
    i: usize,
) -> (r: Result<Vec<(String, NodeContainer)>, SchemaError>)
    requires
        i <= props.len(),
    ensures
        match spec_compile_props(defs@, props@, fuel as nat, i as int) {
            Ok(es) => r is Ok && entries_view(r->Ok_0@) == es,
            Err(e) => r is Err && r->Err_0 == e,
        },
    decreases fuel, props@, props@.len() - i,
{
    if i >= props.len() {
        proof {
            assert(entries_view(Seq::<(String, NodeContainer)>::empty()) =~= Seq::<
                (Seq<char>, NodeContainerV),
            >::empty());
        }
        return Ok(Vec::new());
    }
    proof {
        assert(decreases_to!(props@ => props@[i as int]));
        assert(decreases_to!(props@[i as int] => props@[i as int].1));
    }
    match schema_to_node(defs, &props[i].1, fuel) {
        Ok(c) => {
            match compile_props(defs, props, fuel, i + 1) {
                Ok(mut rest) => {
                    rest.insert(0, (props[i].0.clone(), c));
                    proof {
                        assert(entries_view(rest@) =~= seq![(props@[i as int].0@, c@)]
                            + spec_compile_props(defs@, props@, fuel as nat, i + 1)->Ok_0);
                    }
                    Ok(rest)
                },
                Err(e) => Err(e),
            }
        },
        Err(e) => Err(e),
    }
}

/// Compiles a list of subschemas from position `i` on.
fn compile_list(defs: &Vec<(String, Schema)>, ss: &Vec<Schema>, fuel: u64, i: usize) -> (r: Result<
    Vec<NodeContainer>,
    SchemaError,
>)
    requires
        i <= ss.len(),
    ensures
        match spec_compile_list(defs@, ss@, fuel as nat, i as int) {
            Ok(ns) => r is Ok && nodes_view(r->Ok_0@) == ns,
            Err(e) => r is Err && r->Err_0 == e,
        },
    decreases fuel, ss@, ss@.len() - i,
{
    if i >= ss.len() {
        proof {
            assert(nodes_view(Seq::<NodeContainer>::empty()) =~= Seq::<NodeContainerV>::empty());
        }
        return Ok(Vec::new());
    }
    proof {
        assert(decreases_to!(ss@ => ss@[i as int]));
    }
    match schema_to_node(defs, &ss[i], fuel) {
        Ok(c) => {
            match compile_list(defs, ss, fuel, i + 1) {
                Ok(mut rest) => {
                    rest.insert(0, c);
                    proof {
                        assert(nodes_view(rest@) =~= seq![c@] + spec_compile_list(
                            defs@,
                            ss@,
                            fuel as nat,
                            i + 1,
                        )->Ok_0);
                    }
                    Ok(rest)
                },
                Err(e) => Err(e),
            }
        },
        Err(e) => Err(e),
    }
}

/// Compiles the object facet onto the accumulator.
fn compile_object(
    defs: &Vec<(String, Schema)>,
    s: &Schema,
    res: NodeContainer,
    fuel: u64,
) -> (r: Result<NodeContainer, SchemaError>)
    ensures
        match spec_compile_object(defs@, *s, container_view(res), fuel as nat) {
            Ok(c) => r is Ok && r->Ok_0@ == c,
            Err(e) => r is Err && r->Err_0 == e,
        },
    decreases fuel, *s, 1int,
{
    match &s.object {
        None => Ok(res),
        Some(o) => {
            proof {
                assert(decreases_to!(*s => s.object));
                assert(decreases_to!(s.object => s.object->0));
                assert(decreases_to!(s.object->0 => s.object->0.properties));
                assert(decreases_to!(s.object->0.properties => s.object->0.properties@));
            }
            match compile_props(defs, &o.properties, fuel, 0) {
                Err(e) => Err(e),
                Ok(entries) => {
                    if o.properties.len() > 0 {
                        let node = with_meta(
                            Node::Object(NodeObject { nodes: entries, template: None }),
                            &None,
                        );
                        Ok(res.merge(&node))
                    } else {
                        match &o.additional {
                            None => Err(SchemaError::EmptyObject),
                            Some(a) => {
                                proof {
                                    assert(decreases_to!(s.object->0 => s.object->0.additional));
                                    assert(decreases_to!(s.object->0.additional => s.object
                                        ->0.additional->0));
                                }
                                match schema_to_node(defs, a, fuel) {
                                    Err(e) => Err(e),
                                    Ok(t) => {
                                        let node = with_meta(
                                            Node::Object(
                                                NodeObject {
                                                    nodes: entries,
                                                    template: Some(Box::new(t)),
                                                },
                                            ),
                                            &None,
                                        );
                                        Ok(res.merge(&node))
                                    },
                                }
                            },
                        }
                    }
                },
            }
        },
    }
}

/// Compiles the array, intersection, union and reference facets onto the
/// accumulator.
#[verifier::rlimit(100)]
fn compile_rest(
    defs: &Vec<(String, Schema)>,
    s: &Schema,
    res: NodeContainer,
    fuel: u64,
) -> (r: Result<NodeContainer, SchemaError>)
    ensures
        match spec_compile_rest(defs@, *s, container_view(res), fuel as nat) {
            Ok(c) => r is Ok && r->Ok_0@ == c,
            Err(e) => r is Err && r->Err_0 == e,
        },
    decreases fuel, *s, 1int,
{
    let res = match &s.items {
        None => res,
        Some(ItemsSpec::Single(one)) => {
            proof {
                assert(decreases_to!(*s => s.items));
                assert(decreases_to!(s.items => s.items->0));
                assert(decreases_to!(s.items->0 => s.items->0->Single_0));
            }
            match schema_to_node(defs, one, fuel) {
                Err(e) => {
                    return Err(e);
                },
                Ok(t) => {
                    let node = with_meta(
                        Node::Array(
                            NodeArray {
                                template: NodeArrayTemplate::All(Box::new(t)),
                                values: None,
                            },
                        ),
                        &s.metadata,
                    );
                    res.merge(&node)
                },
            }
        },
        Some(ItemsSpec::Many(many)) => {
            proof {
                assert(decreases_to!(*s => s.items));
                assert(decreases_to!(s.items => s.items->0));
                assert(decreases_to!(s.items->0 => s.items->0->Many_0));
                assert(decreases_to!(s.items->0->Many_0 => s.items->0->Many_0@));
            }
            match compile_list(defs, many, fuel, 0) {
                Err(e) => {
                    return Err(e);
                },
                Ok(ts) => {
                    let node = with_meta(
                        Node::Array(
                            NodeArray { template: NodeArrayTemplate::FirstN(ts), values: None },
                        ),
                        &s.metadata,
                    );
                    res.merge(&node)
                },
            }
        },
    };
    let res = match &s.all_of {
        None => res,
        Some(branches) => {
            proof {
                assert(decreases_to!(*s => s.all_of));
                assert(decreases_to!(s.all_of => s.all_of->0));
                assert(decreases_to!(s.all_of->0 => s.all_of->0@));
            }
            match compile_list(defs, branches, fuel, 0) {
                Err(e) => {
                    return Err(e);
                },
                Ok(ns) => fold_merge(res, &ns, 0),
            }
        },
    };
    let res = match &s.one_of {
        None => res,
        Some(branches) => {
            proof {
                assert(decreases_to!(*s => s.one_of));
                assert(decreases_to!(s.one_of => s.one_of->0));
                assert(decreases_to!(s.one_of->0 => s.one_of->0@));
            }
            match compile_list(defs, branches, fuel, 0) {
                Err(e) => {
                    return Err(e);
                },
                Ok(ns) => {
                    let node = with_meta(
                        Node::Enum(NodeEnum { nodes: ns, value: None }),
                        &s.metadata,
                    );
                    res.merge(&node)
                },
            }
        },
    };
    let res = match &s.any_of {
        None => res,
        Some(branches) => {
            proof {
                assert(decreases_to!(*s => s.any_of));
                assert(decreases_to!(s.any_of => s.any_of->0));
                assert(decreases_to!(s.any_of->0 => s.any_of->0@));
            }
            match compile_list(defs, branches, fuel, 0) {
                Err(e) => {
                    return Err(e);
                },
                Ok(ns) => {
                    let node = with_meta(
                        Node::Enum(NodeEnum { nodes: ns, value: None }),
                        &s.metadata,
                    );
                    res.merge(&node)
                },
            }
        },
    };
    match &s.reference {
        None => Ok(res),
        Some(name) => {
            match def_find(defs, name) {
                None => Err(SchemaError::UnknownReference),
                Some(idx) => {
                    if fuel == 0 {
                        Err(SchemaError::RecursionLimit)
                    } else {
                        match schema_to_node(defs, &defs[idx].1, fuel - 1) {
                            Err(e) => Err(e),
                            Ok(t) => Ok(res.merge(&t)),
                        }
                    }
                },
            }
        },
    }
}

/// Folds compiled intersection branches into the accumulator, from `i` on.
fn fold_merge(acc: NodeContainer, ns: &Vec<NodeContainer>, i: usize) -> (r: NodeContainer)
    requires
        i <= ns.len(),
    ensures
        r@ == spec_fold_merge(acc@, nodes_view(ns@), i as int),
    decreases ns.len() - i,
{
    if i >= ns.len() {
        acc
    } else {
        let merged = acc.merge(&ns[i]);
        fold_merge(merged, ns, i + 1)
    }
}

/// Compiles one schema description into a node tree.
#[verifier::rlimit(100)]
pub fn schema_to_node(defs: &Vec<(String, Schema)>, s: &Schema, fuel: u64) -> (r: Result<
    NodeContainer,
    SchemaError,
>)
    ensures
        match spec_compile(defs@, *s, fuel as nat) {
            Ok(c) => r is Ok && r->Ok_0@ == c,
            Err(e) => r is Err && r->Err_0 == e,
        },
    decreases fuel, *s, 2int,
{
    let res = with_meta(Node::Any, &None);
    let res = match &s.instance_type {
        None => res,
        Some(TypesSpec::Single(k)) => {
            let node = with_meta(instance_node(*k, &s.format), &s.metadata);
            res.merge(&node)
        },
        Some(TypesSpec::Many(ks)) => {
            let children = kinds_nodes(ks, &s.format, 0);
            let node = with_meta(
                Node::Enum(NodeEnum { nodes: children, value: None }),
                &s.metadata,
            );
            res.merge(&node)
        },
    };
    match compile_object(defs, s, res, fuel) {
        Err(e) => Err(e),
        Ok(res) => {
            let res = match &s.enum_values {
                None => res,
                Some(vals) => {
                    if vals.len() == 1 {
                        let node = with_meta(
                            Node::Value(NodeValue { value: value_dup(&vals[0]) }),
                            &s.metadata,
                        );
                        res.merge(&node)
                    } else {
                        let children = literal_nodes(vals, &s.metadata, 0);
                        let node = with_meta(
                            Node::Enum(NodeEnum { nodes: children, value: None }),
                            &s.metadata,
                        );
                        res.merge(&node)
                    }
                },
            };
            compile_rest(defs, s, res, fuel)
        },
    }
}

/// A complete schema document: the root schema and its definitions table.
#[derive(Debug)]
pub struct RootSchema {
    pub schema: Schema,
    pub definitions: Vec<(String, Schema)>,
}

/// How many nested reference resolutions the compiler will follow.
pub const REFERENCE_FUEL: u64 = 64;

impl NodeContainer {
    /// Compiles a schema document into an all-default, unmodified node tree.
    pub fn from_json_schema2(root: &RootSchema) -> (r: Result<NodeContainer, SchemaError>)
        ensures
            match spec_compile(root.definitions@, root.schema, REFERENCE_FUEL as nat) {
                Ok(c) => r is Ok && r->Ok_0@ == c,
                Err(e) => r is Err && r->Err_0 == e,
            },
    {
        schema_to_node(&root.definitions, &root.schema, REFERENCE_FUEL)
    }
}

} // verus!
