//! The serializer: projects the explicitly-set parts of a node tree back
//! into a generic value, so sparse configuration files stay sparse.

use vstd::prelude::*;

use crate::node::{
    container_view, entries_view, node_view, nodes_view, Node, NodeArrayTemplate, NodeContainer,
    NodeContainerV, NodeV,
};
use crate::number::spec_to_number;
use crate::value::{fields_view, pairs_view, value_view, views_of, FieldMap, Value, ValueMap, ValueV};

verus! {

broadcast use {crate::node_lemmas::group_node_views, crate::value::group_value_views};

/// The projections of the declared fields from position `i` on, keeping only
/// fields that project to a value.
pub open spec fn spec_project_fields(
    entries: Seq<(Seq<char>, NodeContainerV)>,
    i: int,
) -> Seq<(Seq<char>, ValueV)>
    decreases entries, entries.len() - i,
{
    if i < 0 || i >= entries.len() {
        Seq::empty()
    } else {
        let rest = spec_project_fields(entries, i + 1);
        match spec_to_value(entries[i].1) {
            Some(v) => seq![(entries[i].0, v)] + rest,
            None => rest,
        }
    }
}

/// The projections of a map-like object's entries from position `i` on, with
/// string keys wrapped as values.
pub open spec fn spec_project_dict(
    entries: Seq<(Seq<char>, NodeContainerV)>,
    i: int,
) -> Seq<(ValueV, ValueV)>
    decreases entries, entries.len() - i,
{
    if i < 0 || i >= entries.len() {
        Seq::empty()
    } else {
        let rest = spec_project_dict(entries, i + 1);
        match spec_to_value(entries[i].1) {
            Some(v) => seq![(ValueV::String(entries[i].0), v)] + rest,
            None => rest,
        }
    }
}

/// The projections of an array's current elements from position `i` on:
/// defined only when every element projects.
pub open spec fn spec_project_elems(vals: Seq<NodeContainerV>, i: int) -> Option<Seq<ValueV>>
    decreases vals, vals.len() - i,
{
    if i < 0 || i >= vals.len() {
        Some(Seq::empty())
    } else {
        match spec_to_value(vals[i]) {
            Some(v) => match spec_project_elems(vals, i + 1) {
                Some(rest) => Some(seq![v] + rest),
                None => None,
            },
            None => None,
        }
    }
}

/// The minimal write-back value of a subtree: nothing unless the subtree is
/// marked modified; otherwise the bound scalar, the projected fields (a
/// subset of the schema's, and nothing at all when no field projects — a
/// defaults-only pass is suppressed entirely), the selected enum branch, or
/// the element list.
pub open spec fn spec_to_value(c: NodeContainerV) -> Option<ValueV>
    decreases c, 0int,
{
    if !c.modified {
        None
    } else {
        match c.node {
            NodeV::Null => Some(ValueV::Option(None)),
            NodeV::Bool(ov) => match ov {
                Some(b) => Some(ValueV::Bool(b)),
                None => None,
            },
            NodeV::String(ov) => match ov {
                Some(s) => Some(ValueV::String(s)),
                None => None,
            },
            NodeV::Number(ov, _, _) => match ov {
                Some(nv) => Some(ValueV::Number(spec_to_number(nv))),
                None => None,
            },
            NodeV::Object(entries, tpl) => if tpl is Some {
                let pairs = spec_project_dict(entries, 0);
                if pairs.len() == 0 {
                    None
                } else {
                    Some(ValueV::Dict(pairs))
                }
            } else {
                let fields = spec_project_fields(entries, 0);
                if fields.len() == 0 {
                    None
                } else {
                    Some(ValueV::Struct(None, fields))
                }
            },
            NodeV::Enum(ns, sel) => match sel {
                Some(pos) => if 0 <= pos < ns.len() {
                    spec_to_value(ns[pos])
                } else {
                    None
                },
                None => None,
            },
            NodeV::Array(tpl, vals) => match vals {
                Some(vs) => match spec_project_elems(vs, 0) {
                    Some(elems) => if tpl is FirstN {
                        Some(ValueV::Tuple(elems))
                    } else {
                        Some(ValueV::List(elems))
                    },
                    None => None,
                },
                None => None,
            },
            NodeV::Value(v) => Some(v),
            NodeV::Any => None,
        }
    }
}

/// Projects the declared fields from `i` on.
fn project_fields(entries: &Vec<(String, NodeContainer)>, i: usize) -> (r: Vec<(String, Value)>)
    requires
        i <= entries.len(),
    ensures
        fields_view(r@) == spec_project_fields(entries_view(entries@), i as int),
    decreases entries_view(entries@), entries@.len() - i,
{
    if i >= entries.len() {
        proof {
            assert(fields_view(Seq::<(String, Value)>::empty()) =~= Seq::<
                (Seq<char>, ValueV),
            >::empty());
        }
        return Vec::new();
    }
    proof {
        assert(entries_view(entries@)[i as int].1 == container_view(entries@[i as int].1));
        assert(decreases_to!(entries_view(entries@) => entries_view(entries@)[i as int].1));
    }
    let mut rest = project_fields(entries, i + 1);
    match entries[i].1.to_value() {
        Some(v) => {
            rest.insert(0, (entries[i].0.clone(), v));
            proof {
                assert(fields_view(rest@) =~= seq![
                    (entries_view(entries@)[i as int].0, v@),
                ] + spec_project_fields(entries_view(entries@), i + 1));
            }
            rest
        },
        None => rest,
    }
}

/// Projects a map-like object's entries from `i` on.
fn project_dict(entries: &Vec<(String, NodeContainer)>, i: usize) -> (r: Vec<(Value, Value)>)
    requires
        i <= entries.len(),
    ensures
        pairs_view(r@) == spec_project_dict(entries_view(entries@), i as int),
    decreases entries_view(entries@), entries@.len() - i,
{
    if i >= entries.len() {
        proof {
            assert(pairs_view(Seq::<(Value, Value)>::empty()) =~= Seq::<
                (ValueV, ValueV),
            >::empty());
        }
        return Vec::new();
    }
    proof {
        assert(entries_view(entries@)[i as int].1 == container_view(entries@[i as int].1));
        assert(decreases_to!(entries_view(entries@) => entries_view(entries@)[i as int].1));
    }
    let mut rest = project_dict(entries, i + 1);
    match entries[i].1.to_value() {
        Some(v) => {
            rest.insert(0, (Value::String(entries[i].0.clone()), v));
            proof {
                assert(pairs_view(rest@) =~= seq![
                    (ValueV::String(entries_view(entries@)[i as int].0), v@),
                ] + spec_project_dict(entries_view(entries@), i + 1));
            }
            rest
        },
        None => rest,
    }
}

/// Projects the array elements from `i` on; `None` as soon as one element
/// has nothing to project.
fn project_elems(vals: &Vec<NodeContainer>, i: usize) -> (r: Option<Vec<Value>>)
    requires
        i <= vals.len(),
    ensures
        match spec_project_elems(nodes_view(vals@), i as int) {
            Some(s) => r is Some && views_of(r->0@) == s,
            None => r is None,
        },
    decreases nodes_view(vals@), vals@.len() - i,
{
    if i >= vals.len() {
        proof {
            assert(views_of(Seq::<Value>::empty()) =~= Seq::<ValueV>::empty());
        }
        return Some(Vec::new());
    }
    proof {
        assert(nodes_view(vals@)[i as int] == container_view(vals@[i as int]));
        assert(decreases_to!(nodes_view(vals@) => nodes_view(vals@)[i as int]));
    }
    match vals[i].to_value() {
        Some(v) => {
            match project_elems(vals, i + 1) {
                Some(mut rest) => {
                    rest.insert(0, v);
                    proof {
                        assert(views_of(rest@) =~= seq![v@] + spec_project_elems(
                            nodes_view(vals@),
                            i + 1,
                        )->0);
                    }
                    Some(rest)
                },
                None => None,
            }
        },
        None => None,
    }
}

impl NodeContainer {
    /// Projects the explicitly-set data of this subtree back into a generic
    /// value: `None` unless the subtree is marked modified; object output
    /// keys can be a strict subset of the schema's.
    pub fn to_value(&self) -> (r: Option<Value>)
        ensures
            match spec_to_value(self@) {
                Some(v) => r is Some && r->0@ == v,
                None => r is None,
            },
        decreases self@, 1int,
    {
        if !self.modified {
            return None;
        }
        match &self.node {
            Node::Null => Some(Value::Option(None)),
            Node::Bool(b) => match b.value {
                Some(v) => Some(Value::Bool(v)),
                None => None,
            },
            Node::String(s) => match &s.value {
                Some(v) => Some(Value::String(v.clone())),
                None => None,
            },
            Node::Number(x) => match &x.value {
                Some(nv) => Some(Value::Number(nv.to_number())),
                None => None,
            },
            Node::Object(o) => {
                proof {
                    assert(self@.node == node_view(self.node));
                    assert(decreases_to!(self@ => self@.node));
                    assert(self@.node->Object_0 == entries_view(o.nodes@));
                }
                if o.template.is_some() {
                    let pairs = project_dict(&o.nodes, 0);
                    if pairs.len() == 0 {
                        None
                    } else {
                        Some(Value::Dict(ValueMap(pairs)))
                    }
                } else {
                    let fields = project_fields(&o.nodes, 0);
                    if fields.len() == 0 {
                        None
                    } else {
                        Some(Value::Struct(None, FieldMap(fields)))
                    }
                }
            },
            Node::Enum(en) => {
                proof {
                    assert(self@.node == node_view(self.node));
                    assert(decreases_to!(self@ => self@.node));
                    assert(self@.node->Enum_0 == nodes_view(en.nodes@));
                }
                match en.value {
                    Some(pos) => {
                        if pos < en.nodes.len() {
                            proof {
                                assert(nodes_view(en.nodes@)[pos as int] == container_view(
                                    en.nodes@[pos as int],
                                ));
                                assert(decreases_to!(self@.node->Enum_0 => nodes_view(
                                    en.nodes@,
                                )[pos as int]));
                            }
                            en.nodes[pos].to_value()
                        } else {
                            None
                        }
                    },
                    None => None,
                }
            },
            Node::Array(a) => {
                proof {
                    assert(self@.node == node_view(self.node));
                    assert(decreases_to!(self@ => self@.node));
                    assert(match a.values {
                        Some(v) => self@.node->Array_1 == Some(nodes_view(v@)),
                        None => self@.node->Array_1 is None,
                    });
                }
                match &a.values {
                    Some(vs) => {
                        proof {
                            assert(decreases_to!(self@.node => self@.node->Array_1));
                            assert(decreases_to!(self@.node->Array_1 => self@.node->Array_1->0));
                        }
                        match project_elems(vs, 0) {
                            Some(elems) => {
                                if matches!(&a.template, NodeArrayTemplate::FirstN(_)) {
                                    Some(Value::Tuple(elems))
                                } else {
                                    Some(Value::List(elems))
                                }
                            },
                            None => None,
                        }
                    },
                    None => None,
                }
            },
            Node::Value(v) => Some(crate::eq::value_dup(&v.value)),
            Node::Any => None,
        }
    }

    /// Whether this subtree currently projects to a value.
    pub fn is_valid(&self) -> (r: bool)
        ensures
            r == (spec_to_value(self@) is Some),
    {
        self.to_value().is_some()
    }
}

} // verus!
