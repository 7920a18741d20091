//! The compiled node tree: a stateful, schema-shaped document holding the
//! currently bound data and per-subtree `modified` flags.

use vstd::prelude::*;

use crate::eq::value_dup;
use crate::number::{parse_kind, spec_parse_kind, NumberValue, NumberValueLight};
use crate::value::{Value, ValueV};

verus! {

/// A bound (or unbound) boolean position.
#[derive(Debug)]
pub struct NodeBool {
    pub value: Option<bool>,
}

/// A bound (or unbound) string position.
#[derive(Debug)]
pub struct NodeString {
    pub value: Option<String>,
}

/// A bound (or unbound) numeric position, remembering its declared kind and
/// a display rendering of the current value.
#[derive(Debug)]
pub struct NodeNumber {
    pub value: Option<NumberValue>,
    pub value_string: String,
    pub kind: NumberValueLight,
}

/// A fixed literal position: only this value is legal here.
#[derive(Debug)]
pub struct NodeValue {
    pub value: Value,
}

/// An object position: declared fields in order, and an optional homogeneous
/// template for map-like extra keys.
#[derive(Debug)]
pub struct NodeObject {
    pub nodes: Vec<(String, NodeContainer)>,
    pub template: Option<Box<NodeContainer>>,
}

/// The element schema(s) of an array position: one shared template for every
/// element, or one template per position.
#[derive(Debug)]
pub enum NodeArrayTemplate {
    All(Box<NodeContainer>),
    FirstN(Vec<NodeContainer>),
}

/// An array position: its template(s) and, when reconciled, one container
/// per current element.
#[derive(Debug)]
pub struct NodeArray {
    pub template: NodeArrayTemplate,
    pub values: Option<Vec<NodeContainer>>,
}

/// A sum position: the variant subtrees in order, and the index of the
/// variant selected by the last applied value.
#[derive(Debug)]
pub struct NodeEnum {
    pub nodes: Vec<NodeContainer>,
    pub value: Option<usize>,
}

/// The closed set of node shapes.
#[derive(Debug)]
pub enum Node {
    Null,
    Bool(NodeBool),
    String(NodeString),
    Number(NodeNumber),
    Object(NodeObject),
    Enum(NodeEnum),
    Array(NodeArray),
    Value(NodeValue),
    Any,
}

/// One schema position: its shape, its schema default, whether it holds
/// explicitly applied data, whether it was instantiated from a template,
/// and its descriptive metadata.
#[derive(Debug)]
pub struct NodeContainer {
    pub node: Node,
    pub default: Option<Value>,
    pub modified: bool,
    pub removable: bool,
    pub title: Option<String>,
    pub description: Option<String>,
}

/// Mathematical model of a [`NodeArrayTemplate`].
pub enum TemplateV {
    All(Box<NodeContainerV>),
    FirstN(Seq<NodeContainerV>),
}

/// Mathematical model of a [`Node`].
pub enum NodeV {
    Null,
    Bool(Option<bool>),
    String(Option<Seq<char>>),
    Number(Option<NumberValue>, Seq<char>, NumberValueLight),
    Object(Seq<(Seq<char>, NodeContainerV)>, Option<Box<NodeContainerV>>),
    Enum(Seq<NodeContainerV>, Option<int>),
    Array(TemplateV, Option<Seq<NodeContainerV>>),
    Value(ValueV),
    Any,
}

/// Mathematical model of a [`NodeContainer`].
pub struct NodeContainerV {
    pub node: NodeV,
    pub default: Option<ValueV>,
    pub modified: bool,
    pub removable: bool,
    pub title: Option<Seq<char>>,
    pub description: Option<Seq<char>>,
}

/// The views of every container of a vector.
pub open spec fn nodes_view(s: Seq<NodeContainer>) -> Seq<NodeContainerV>
    decreases s,
{
    if s.len() == 0 {
        Seq::empty()
    } else {
        nodes_view(s.drop_last()).push(container_view(s.last()))
    }
}

/// The views of every named field entry of a vector.
pub open spec fn entries_view(s: Seq<(String, NodeContainer)>) -> Seq<(Seq<char>, NodeContainerV)>
    decreases s,
{
    if s.len() == 0 {
        Seq::empty()
    } else {
        entries_view(s.drop_last()).push((s.last().0@, container_view(s.last().1)))
    }
}

pub open spec fn template_view(t: NodeArrayTemplate) -> TemplateV
    decreases t,
{
    match t {
        NodeArrayTemplate::All(b) => TemplateV::All(Box::new(container_view(*b))),
        NodeArrayTemplate::FirstN(v) => TemplateV::FirstN(nodes_view(v@)),
    }
}

pub open spec fn node_view(n: Node) -> NodeV
    decreases n,
{
    match n {
        Node::Null => NodeV::Null,
        Node::Bool(b) => NodeV::Bool(b.value),
        Node::String(s) => NodeV::String(
            match s.value {
                Some(v) => Some(v@),
                None => None,
            },
        ),
        Node::Number(x) => NodeV::Number(x.value, x.value_string@, x.kind),
        Node::Object(o) => NodeV::Object(
            entries_view(o.nodes@),
            match o.template {
                Some(b) => Some(Box::new(container_view(*b))),
                None => None,
            },
        ),
        Node::Enum(e) => NodeV::Enum(
            nodes_view(e.nodes@),
            match e.value {
                Some(i) => Some(i as int),
                None => None,
            },
        ),
        Node::Array(a) => NodeV::Array(
            template_view(a.template),
            match a.values {
                Some(v) => Some(nodes_view(v@)),
                None => None,
            },
        ),
        Node::Value(v) => NodeV::Value(crate::value::value_view(v.value)),
        Node::Any => NodeV::Any,
    }
}

pub open spec fn container_view(c: NodeContainer) -> NodeContainerV
    decreases c,
{
    NodeContainerV {
        node: node_view(c.node),
        default: match c.default {
            Some(d) => Some(crate::value::value_view(d)),
            None => None,
        },
        modified: c.modified,
        removable: c.removable,
        title: match c.title {
            Some(t) => Some(t@),
            None => None,
        },
        description: match c.description {
            Some(d) => Some(d@),
            None => None,
        },
    }
}

impl View for NodeContainer {
    type V = NodeContainerV;

    open spec fn view(&self) -> NodeContainerV {
        container_view(*self)
    }
}

impl View for Node {
    type V = NodeV;

    open spec fn view(&self) -> NodeV {
        node_view(*self)
    }
}

impl NodeBool {
    pub fn new() -> (r: Self)
        ensures
            r.value is None,
    {
        NodeBool { value: None }
    }
}

impl NodeString {
    pub fn new() -> (r: Self)
        ensures
            r.value is None,
    {
        NodeString { value: None }
    }
}

impl NodeNumber {
    pub fn new(kind: NumberValueLight) -> (r: Self)
        ensures
            r.value is None,
            r.value_string@ == Seq::<char>::empty(),
            r.kind == kind,
    {
        NodeNumber { value: None, value_string: String::new(), kind }
    }
}

/// The text offered for a numeric position cannot be read as a number of
/// its declared kind.
#[derive(Clone, Copy, Debug, PartialEq, Eq, Structural)]
pub struct NumberParseError;

impl NodeNumber {
    /// Parses edited text as a number of this position's declared kind:
    /// exactly the decimal literals that fit the declared width. Float text
    /// is not interpreted here; the embedding layer supplies float bits
    /// directly.
    pub fn try_parse_from_str(&self, str: &str) -> (r: Result<NumberValue, NumberParseError>)
        ensures
            match spec_parse_kind(self.kind, str@) {
                Some(nv) => r is Ok && r->Ok_0 == nv,
                None => r is Err,
            },
    {
        match parse_kind(self.kind, str) {
            Some(nv) => Ok(nv),
            None => Err(NumberParseError),
        }
    }
}

impl NodeValue {
    pub fn new(value: Value) -> (r: Self)
        ensures
            r.value == value,
    {
        NodeValue { value }
    }
}

impl NodeObject {
    pub fn new(nodes: Vec<(String, NodeContainer)>, template: Option<NodeContainer>) -> (r: Self)
        ensures
            r.nodes == nodes,
            template is Some <==> r.template is Some,
            template is Some ==> *r.template->0 == template->0,
    {
        NodeObject {
            nodes,
            template: match template {
                Some(t) => Some(Box::new(t)),
                None => None,
            },
        }
    }

}



impl NodeEnum {
    pub fn new(nodes: Vec<NodeContainer>) -> (r: Self)
        ensures
            r.nodes == nodes,
            r.value is None,
    {
        NodeEnum { nodes, value: None }
    }
}

impl NodeArray {
    /// Whether this array renders as a fixed tuple rather than a list.
    pub fn is_tuple(&self) -> (r: bool)
        ensures
            r == (template_view(self.template) is FirstN),
    {
        matches!(&self.template, NodeArrayTemplate::FirstN(_))
    }
}

impl NodeContainer {
    /// Wraps a bare node with no default, no metadata, and no data.
    pub fn from_node(node: Node) -> (r: Self)
        ensures
            r@ == (NodeContainerV {
                node: node@,
                default: None,
                modified: false,
                removable: false,
                title: None,
                description: None,
            }),
    {
        NodeContainer {
            node,
            default: None,
            modified: false,
            removable: false,
            title: None,
            description: None,
        }
    }
}

/// The result of resetting a container: scalar bindings, enum selection and
/// array elements are cleared, object fields and enum variant subtrees are
/// reset recursively, and `modified` is forced off throughout.
pub open spec fn spec_cleared(c: NodeContainerV) -> NodeContainerV
    decreases c,
{
    NodeContainerV { node: spec_cleared_node(c.node), modified: false, ..c }
}

pub open spec fn spec_cleared_node(n: NodeV) -> NodeV
    decreases n,
{
    match n {
        NodeV::Null => NodeV::Null,
        NodeV::Bool(_) => NodeV::Bool(None),
        NodeV::String(_) => NodeV::String(None),
        NodeV::Number(_, s, k) => NodeV::Number(None, s, k),
        NodeV::Object(es, t) => NodeV::Object(spec_cleared_entries(es), t),
        NodeV::Enum(ns, _) => NodeV::Enum(spec_cleared_nodes(ns), None),
        NodeV::Array(t, _) => NodeV::Array(t, None),
        NodeV::Value(v) => NodeV::Value(v),
        NodeV::Any => NodeV::Any,
    }
}

pub open spec fn spec_cleared_nodes(s: Seq<NodeContainerV>) -> Seq<NodeContainerV>
    decreases s,
{
    if s.len() == 0 {
        Seq::empty()
    } else {
        spec_cleared_nodes(s.drop_last()).push(spec_cleared(s.last()))
    }
}

pub open spec fn spec_cleared_entries(s: Seq<(Seq<char>, NodeContainerV)>) -> Seq<
    (Seq<char>, NodeContainerV),
>
    decreases s,
{
    if s.len() == 0 {
        Seq::empty()
    } else {
        spec_cleared_entries(s.drop_last()).push((s.last().0, spec_cleared(s.last().1)))
    }
}


} // verus!
