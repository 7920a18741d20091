//! Deep copies and resets of node trees.

use vstd::prelude::*;

use crate::eq::value_dup;
use crate::node::{
    container_view, entries_view, nodes_view, spec_cleared, spec_cleared_entries,
    spec_cleared_node, spec_cleared_nodes, template_view, Node, NodeArray, NodeArrayTemplate,
    NodeBool, NodeContainer, NodeContainerV, NodeEnum, NodeNumber, NodeObject, NodeString,
    NodeValue, TemplateV,
};

verus! {

broadcast use crate::node_lemmas::group_node_views;

impl NodeObject {
    /// A fresh copy of the homogeneous template, if this object has one.
    pub fn template(&self) -> (r: Option<NodeContainer>)
        ensures
            r is Some <==> self.template is Some,
            r is Some ==> r->0@ == container_view(*self.template->0),
    {
        match &self.template {
            Some(t) => {
                let d = container_dup(t);
                proof {
                    assert(d@ == container_view(**t));
                }
                Some(d)
            },
            None => None,
        }
    }
}

impl NodeArray {
    /// A fresh copy of the template for element position `pos`: the shared
    /// template for homogeneous arrays, the position's own template for
    /// fixed ones, and nothing when the position has no template.
    pub fn template_at(&self, pos: usize) -> (r: Option<NodeContainer>)
        ensures
            match template_view(self.template) {
                TemplateV::All(t) => r is Some && r->0@ == *t,
                TemplateV::FirstN(ts) => if pos < ts.len() {
                    r is Some && r->0@ == ts[pos as int]
                } else {
                    r is None
                },
            },
    {
            match &self.template {
            NodeArrayTemplate::All(t) => Some(container_dup(t)),
            NodeArrayTemplate::FirstN(ts) => {
                proof {
                    crate::node_lemmas::lemma_nodes_view_len(ts@);
                }
                if pos < ts.len() {
                    let d = container_dup(&ts[pos]);
                    proof {
                        crate::node_lemmas::lemma_nodes_view_index(ts@, pos as int);
                        assert(d@ == nodes_view(ts@)[pos as int]);
                    }
                    Some(d)
                } else {
                    None
                }
            },
        }
    }


}

/// A deep copy of a container vector.
pub fn containers_dup(s: &Vec<NodeContainer>) -> (r: Vec<NodeContainer>)
    ensures
        nodes_view(r@) == nodes_view(s@),
    decreases *s,
{
    let mut out: Vec<NodeContainer> = Vec::new();
    let mut i: usize = 0;
    while i < s.len()
        invariant
            0 <= i <= s.len(),
            out@.len() == i,
            forall|j: int| 0 <= j < i ==> nodes_view(out@)[j] == nodes_view(s@)[j],
        decreases s.len() - i,
    {
        let ghost old_o = out@;
        let c = container_dup(&s[i]);
        out.push(c);
        proof {
            assert(out@ == old_o.push(c));
            assert(forall|j: int| 0 <= j < i ==> out@[j] == old_o[j]);
            assert(forall|j: int|
                0 <= j < i ==> #[trigger] nodes_view(out@)[j] == nodes_view(old_o)[j]);
            assert(nodes_view(out@)[i as int] == c@);
        }
        i += 1;
    }
    proof {
        assert(nodes_view(out@) =~= nodes_view(s@));
    }
    out
}

/// A deep copy of a named-entry vector.
pub fn entries_dup(s: &Vec<(String, NodeContainer)>) -> (r: Vec<(String, NodeContainer)>)
    ensures
        entries_view(r@) == entries_view(s@),
    decreases *s,
{
    let mut out: Vec<(String, NodeContainer)> = Vec::new();
    let mut i: usize = 0;
    while i < s.len()
        invariant
            0 <= i <= s.len(),
            out@.len() == i,
            forall|j: int| 0 <= j < i ==> entries_view(out@)[j] == entries_view(s@)[j],
        decreases s.len() - i,
    {
        let ghost old_o = out@;
        let k = s[i].0.clone();
        let c = container_dup(&s[i].1);
        out.push((k, c));
        proof {
            assert(out@ == old_o.push((k, c)));
            assert(forall|j: int| 0 <= j < i ==> out@[j] == old_o[j]);
            assert(forall|j: int|
                0 <= j < i ==> #[trigger] entries_view(out@)[j] == entries_view(old_o)[j]);
            assert(entries_view(out@)[i as int] == (k@, c@));
        }
        i += 1;
    }
    proof {
        assert(entries_view(out@) =~= entries_view(s@));
    }
    out
}

/// A deep copy of a node.
pub fn node_dup(n: &Node) -> (r: Node)
    ensures
        r@ == n@,
    decreases *n,
{
    match n {
        Node::Null => Node::Null,
        Node::Bool(b) => Node::Bool(NodeBool { value: b.value }),
        Node::String(s) => Node::String(
            NodeString {
                value: match &s.value {
                    Some(v) => Some(v.clone()),
                    None => None,
                },
            },
        ),
        Node::Number(x) => Node::Number(
            NodeNumber { value: x.value, value_string: x.value_string.clone(), kind: x.kind },
        ),
        Node::Object(o) => Node::Object(
            NodeObject {
                nodes: entries_dup(&o.nodes),
                template: match &o.template {
                    Some(t) => Some(Box::new(container_dup(t))),
                    None => None,
                },
            },
        ),
        Node::Enum(e) => Node::Enum(NodeEnum { nodes: containers_dup(&e.nodes), value: e.value }),
        Node::Array(a) => Node::Array(
            NodeArray {
                template: match &a.template {
                    NodeArrayTemplate::All(t) => NodeArrayTemplate::All(
                        Box::new(container_dup(t)),
                    ),
                    NodeArrayTemplate::FirstN(ts) => NodeArrayTemplate::FirstN(
                        containers_dup(ts),
                    ),
                },
                values: match &a.values {
                    Some(v) => Some(containers_dup(v)),
                    None => None,
                },
            },
        ),
        Node::Value(v) => Node::Value(NodeValue { value: value_dup(&v.value) }),
        Node::Any => Node::Any,
    }
}

/// A deep copy of a container: the copy has the same view as the original.
pub fn container_dup(c: &NodeContainer) -> (r: NodeContainer)
    ensures
        r@ == c@,
    decreases *c,
{
    NodeContainer {
        node: node_dup(&c.node),
        default: match &c.default {
            Some(d) => Some(value_dup(d)),
            None => None,
        },
        modified: c.modified,
        removable: c.removable,
        title: match &c.title {
            Some(t) => Some(t.clone()),
            None => None,
        },
        description: match &c.description {
            Some(d) => Some(d.clone()),
            None => None,
        },
    }
}

/// Builds the reset copy of a named-entry vector.
fn cleared_entries(s: &Vec<(String, NodeContainer)>) -> (r: Vec<(String, NodeContainer)>)
    ensures
        entries_view(r@) == spec_cleared_entries(entries_view(s@)),
    decreases *s,
{
    let mut out: Vec<(String, NodeContainer)> = Vec::new();
    let mut i: usize = 0;
    while i < s.len()
        invariant
            0 <= i <= s.len(),
            out@.len() == i,
            forall|j: int|
                0 <= j < i ==> entries_view(out@)[j] == spec_cleared_entries(entries_view(s@))[j],
        decreases s.len() - i,
    {
        let ghost old_o = out@;
        let k = s[i].0.clone();
        let c = cleared_container(&s[i].1);
        out.push((k, c));
        proof {
            assert(out@ == old_o.push((k, c)));
            assert(forall|j: int| 0 <= j < i ==> out@[j] == old_o[j]);
            assert(forall|j: int|
                0 <= j < i ==> #[trigger] entries_view(out@)[j] == entries_view(old_o)[j]);
            assert(entries_view(out@)[i as int] == (k@, c@));
            assert(spec_cleared_entries(entries_view(s@))[i as int] == (
                entries_view(s@)[i as int].0,
                spec_cleared(entries_view(s@)[i as int].1),
            ));
        }
        i += 1;
    }
    proof {
        assert(entries_view(out@) =~= spec_cleared_entries(entries_view(s@)));
    }
    out
}

/// Builds the reset copies of a container vector.
fn cleared_containers(s: &Vec<NodeContainer>) -> (r: Vec<NodeContainer>)
    ensures
        nodes_view(r@) == spec_cleared_nodes(nodes_view(s@)),
    decreases *s,
{
    let mut out: Vec<NodeContainer> = Vec::new();
    let mut i: usize = 0;
    while i < s.len()
        invariant
            0 <= i <= s.len(),
            out@.len() == i,
            forall|j: int|
                0 <= j < i ==> nodes_view(out@)[j] == spec_cleared_nodes(nodes_view(s@))[j],
        decreases s.len() - i,
    {
        let ghost old_o = out@;
        let c = cleared_container(&s[i]);
        out.push(c);
        proof {
            assert(out@ == old_o.push(c));
            assert(forall|j: int| 0 <= j < i ==> out@[j] == old_o[j]);
            assert(forall|j: int|
                0 <= j < i ==> #[trigger] nodes_view(out@)[j] == nodes_view(old_o)[j]);
            assert(nodes_view(out@)[i as int] == c@);
            assert(spec_cleared_nodes(nodes_view(s@))[i as int] == spec_cleared(
                nodes_view(s@)[i as int],
            ));
        }
        i += 1;
    }
    proof {
        assert(nodes_view(out@) =~= spec_cleared_nodes(nodes_view(s@)));
    }
    out
}

/// Builds the reset copy of a container.
fn cleared_container(c: &NodeContainer) -> (r: NodeContainer)
    ensures
        r@ == spec_cleared(c@),
    decreases *c,
{
    let node = match &c.node {
        Node::Null => Node::Null,
        Node::Bool(_) => Node::Bool(NodeBool { value: None }),
        Node::String(_) => Node::String(NodeString { value: None }),
        Node::Number(x) => Node::Number(
            NodeNumber { value: None, value_string: x.value_string.clone(), kind: x.kind },
        ),
        Node::Object(o) => {
            let n = Node::Object(
                NodeObject {
                    nodes: cleared_entries(&o.nodes),
                    template: match &o.template {
                        Some(t) => Some(Box::new(container_dup(t))),
                        None => None,
                    },
                },
            );
            proof {
                assert(n@ == spec_cleared_node(container_view(*c).node));
            }
            n
        },
        Node::Enum(e) => {
            let n = Node::Enum(NodeEnum { nodes: cleared_containers(&e.nodes), value: None });
            proof {
                assert(n@ == spec_cleared_node(container_view(*c).node));
            }
            n
        },
        Node::Array(a) => {
            let tpl = match &a.template {
                NodeArrayTemplate::All(t) => {
                    let d = NodeArrayTemplate::All(Box::new(container_dup(t)));
                    proof {
                        assert(template_view(d) == template_view(a.template));
                    }
                    d
                },
                NodeArrayTemplate::FirstN(ts) => {
                    let d = NodeArrayTemplate::FirstN(containers_dup(ts));
                    proof {
                        assert(template_view(d) == template_view(a.template));
                    }
                    d
                },
            };
            let n = Node::Array(NodeArray { template: tpl, values: None });
            proof {
                assert(n@ == spec_cleared_node(container_view(*c).node));
            }
            n
        },
        Node::Value(v) => Node::Value(NodeValue { value: value_dup(&v.value) }),
        Node::Any => Node::Any,
    };
    proof {
        assert(node@ == spec_cleared_node(container_view(*c).node));
    }
    let result = NodeContainer {
        node,
        default: match &c.default {
            Some(d) => Some(value_dup(d)),
            None => None,
        },
        modified: false,
        removable: c.removable,
        title: match &c.title {
            Some(t) => Some(t.clone()),
            None => None,
        },
        description: match &c.description {
            Some(d) => Some(d.clone()),
            None => None,
        },
    };
    result
}

impl NodeContainer {
    /// Clears bound scalars, enum selection and array element lists, resets
    /// object fields and enum variant subtrees recursively, and forces
    /// `modified` off throughout; run before a reload-triggered
    /// reconciliation pass so no stale state leaks across reloads.
    pub fn remove_value_rec(&mut self)
        ensures
            final(self)@ == spec_cleared(old(self)@),
    {
        let cleared = cleared_container(self);
        *self = cleared;
    }
}


} // verus!
