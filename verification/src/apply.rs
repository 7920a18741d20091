//! The reconciler: merges an incoming generic value into a node tree,
//! selecting enum variants structurally, applying per-field defaults, and
//! rebuilding array elements from their templates.

use vstd::prelude::*;

use crate::merge::{field_find, field_index, field_lookup};
use crate::node::{
    container_view, entries_view, node_view, nodes_view, template_view, Node, NodeArray,
    NodeArrayTemplate,
    NodeBool, NodeContainer, NodeContainerV, NodeEnum, NodeNumber, NodeObject, NodeString, NodeV,
    TemplateV,
};
use crate::node_ops::{container_dup, containers_dup, entries_dup, node_dup};
use crate::number::{number_display, render_number, spec_from_number, NumberValue};
use crate::value::{views_of, FieldMap, Value, ValueMap, ValueV};
use vstd::std_specs::vec::vec_index_mut;

verus! {

broadcast use {crate::node_lemmas::group_node_views, crate::value::group_value_views};

/// Why a reconciliation pass failed.
#[derive(Clone, Copy, Debug, PartialEq, Eq, Structural)]
pub enum ReconciliationError {
    /// No variant of an enum structurally accepts the incoming value.
    NoMatchingVariant,
    /// A fixed multi-template array was given a different number of elements
    /// than it has templates.
    LengthMismatch,
}

/// Index of the first entry of `s` named `k`, or `-1` when absent.
pub open spec fn entry_index(s: Seq<(Seq<char>, NodeContainerV)>, k: Seq<char>) -> int
    decreases s.len(),
{
    if s.len() == 0 {
        -1
    } else if s[0].0 == k {
        0
    } else {
        let r = entry_index(s.drop_first(), k);
        if r == -1 {
            -1
        } else {
            r + 1
        }
    }
}

pub broadcast proof fn lemma_entry_index(s: Seq<(Seq<char>, NodeContainerV)>, k: Seq<char>)
    ensures
        -1 <= #[trigger] entry_index(s, k) < s.len(),
        entry_index(s, k) >= 0 ==> s[entry_index(s, k)].0 == k,
        entry_index(s, k) >= 0 ==> forall|j: int| 0 <= j < entry_index(s, k) ==> s[j].0 != k,
        entry_index(s, k) == -1 ==> forall|j: int| 0 <= j < s.len() ==> s[j].0 != k,
    decreases s.len(),
{
    if s.len() > 0 && s[0].0 != k {
        let t = s.drop_first();
        lemma_entry_index(t, k);
        assert forall|j: int| 1 <= j < s.len() implies s[j] == t[j - 1] by {}
    }
}

/// Whether the declared fields of an object, from position `i` on, are all
/// present in `fields` and structurally accept their values.
pub open spec fn spec_fields_match(
    entries: Seq<(Seq<char>, NodeContainerV)>,
    fields: Seq<(Seq<char>, ValueV)>,
    i: int,
) -> bool
    decreases entries, fields, entries.len() - i,
{
    if i < 0 || i >= entries.len() {
        true
    } else {
        match field_lookup(fields, entries[i].0) {
            Some(v) => spec_is_matching(entries[i].1, v) && spec_fields_match(
                entries,
                fields,
                i + 1,
            ),
            None => false,
        }
    }
}

/// Whether the fixed templates accept the elements of a tuple-shaped value,
/// position by position, from `i` on.
pub open spec fn spec_tuples_match(tpls: Seq<NodeContainerV>, vals: Seq<ValueV>, i: int) -> bool
    decreases tpls, vals, tpls.len() - i,
{
    if i < 0 || i >= tpls.len() || i >= vals.len() {
        true
    } else {
        spec_is_matching(tpls[i], vals[i]) && spec_tuples_match(tpls, vals, i + 1)
    }
}

/// Whether a node structurally accepts a value: the predicate that selects
/// an enum variant during reconciliation.
pub open spec fn spec_is_matching(c: NodeContainerV, v: ValueV) -> bool
    decreases c, v, 0int,
{
    match c.node {
        NodeV::Null => v == ValueV::Option(None),
        NodeV::Bool(_) => v is Bool,
        NodeV::String(_) => v is String,
        NodeV::Number(_, _, _) => v is Number,
        NodeV::Object(entries, _) => match v {
            ValueV::Struct(_, fields) => spec_fields_match(entries, fields, 0),
            ValueV::NamedTuple(name, _) => {
                let i = entry_index(entries, name);
                if 0 <= i < entries.len() {
                    spec_is_matching(entries[i].1, v)
                } else {
                    false
                }
            },
            _ => false,
        },
        NodeV::Enum(_, _) => false,
        NodeV::Array(tpl, _) => match tpl {
            TemplateV::All(_) => v is List || v is Tuple || v is NamedTuple,
            TemplateV::FirstN(ts) => match v {
                ValueV::Tuple(vs) => ts.len() == vs.len() && spec_tuples_match(ts, vs, 0),
                ValueV::NamedTuple(_, vs) => ts.len() == vs.len() && spec_tuples_match(ts, vs, 0),
                _ => false,
            },
        },
        NodeV::Value(lit) => v == lit,
        NodeV::Any => true,
    }
}

/// Index of the first enum variant, from `i` on, that structurally accepts
/// `v`; `-1` when none does.
pub open spec fn spec_match_index(ns: Seq<NodeContainerV>, v: ValueV, i: int) -> int
    decreases ns, v, ns.len() - i,
{
    if i < 0 || i >= ns.len() {
        -1
    } else if spec_is_matching(ns[i], v) {
        i
    } else {
        spec_match_index(ns, v, i + 1)
    }
}

/// Entries with the template-instantiated ones evicted, so keys removed from
/// the incoming data vanish on each pass.
pub open spec fn spec_evict(s: Seq<(Seq<char>, NodeContainerV)>) -> Seq<
    (Seq<char>, NodeContainerV),
>
    decreases s,
{
    if s.len() == 0 {
        Seq::empty()
    } else {
        let r = spec_evict(s.drop_last());
        if s.last().1.removable {
            r
        } else {
            r.push(s.last())
        }
    }
}

/// Inserts a named entry map-style: replaces the value at an existing key,
/// preserving its position, else appends.
pub open spec fn entry_upsert(
    s: Seq<(Seq<char>, NodeContainerV)>,
    k: Seq<char>,
    c: NodeContainerV,
) -> Seq<(Seq<char>, NodeContainerV)> {
    let i = entry_index(s, k);
    if i >= 0 {
        s.update(i, (s[i].0, c))
    } else {
        s.push((k, c))
    }
}

/// Processes the declared fields from position `i` on: template-instantiated
/// entries are evicted, each surviving field present in the incoming fields
/// receives its value marked modified, and each absent one its schema
/// default unmodified. The first failure stops the pass; the remaining
/// survivors are kept untouched. Returns the processed tail.
pub open spec fn spec_apply_fields(
    entries: Seq<(Seq<char>, NodeContainerV)>,
    fields: Seq<(Seq<char>, ValueV)>,
    i: int,
) -> (Seq<(Seq<char>, NodeContainerV)>, Option<ReconciliationError>)
    decreases entries, fields, entries.len() - i,
{
    if i < 0 || i >= entries.len() {
        (Seq::empty(), None)
    } else if entries[i].1.removable {
        spec_apply_fields(entries, fields, i + 1)
    } else {
        let (c2, e) = match field_lookup(fields, entries[i].0) {
            Some(v) => spec_apply(entries[i].1, v, true),
            None => match entries[i].1.default {
                Some(d) => spec_apply(entries[i].1, d, false),
                None => (entries[i].1, None),
            },
        };
        if e is Some {
            (
                seq![(entries[i].0, c2)] + spec_evict(
                    entries.subrange(i + 1, entries.len() as int),
                ),
                e,
            )
        } else {
            let (rest, e2) = spec_apply_fields(entries, fields, i + 1);
            (seq![(entries[i].0, c2)] + rest, e2)
        }
    }
}

/// Instantiates the homogeneous template once per incoming key outside the
/// declared field set, from `j` on, and inserts the reconciled copies,
/// marked modified and removable, in key order.
pub open spec fn spec_apply_extras(
    template: NodeContainerV,
    entries: Seq<(Seq<char>, NodeContainerV)>,
    fields: Seq<(Seq<char>, ValueV)>,
    j: int,
) -> (Seq<(Seq<char>, NodeContainerV)>, Option<ReconciliationError>)
    decreases template, fields, fields.len() - j,
{
    if j < 0 || j >= fields.len() {
        (entries, None)
    } else {
        let idx = entry_index(entries, fields[j].0);
        if 0 <= idx < entries.len() && !entries[idx].1.removable {
            // a declared field: already reconciled by the field pass
            spec_apply_extras(template, entries, fields, j + 1)
        } else {
            let (t2, e) = spec_apply(template, fields[j].1, true);
            if e is Some {
                (entries, e)
            } else {
                let inserted = entry_upsert(
                    entries,
                    fields[j].0,
                    NodeContainerV { removable: true, ..t2 },
                );
                spec_apply_extras(template, inserted, fields, j + 1)
            }
        }
    }
}

/// Reconciles the elements of a sequence-shaped value against the array's
/// template(s), from position `i` on, building one fresh container per
/// element.
pub open spec fn spec_apply_elems(
    tpl: TemplateV,
    vals: Seq<ValueV>,
    m: bool,
    i: int,
) -> (Seq<NodeContainerV>, Option<ReconciliationError>)
    decreases tpl, vals, vals.len() - i,
{
    if i < 0 || i >= vals.len() {
        (Seq::empty(), None)
    } else {
        let applied = match tpl {
            TemplateV::All(t) => Some(spec_apply(*t, vals[i], m)),
            TemplateV::FirstN(ts) => if i < ts.len() {
                Some(spec_apply(ts[i], vals[i], m))
            } else {
                None
            },
        };
        match applied {
            None => (Seq::empty(), Some(ReconciliationError::LengthMismatch)),
            Some((c2, e)) => if e is Some {
                (Seq::empty(), e)
            } else {
                let (rest, e2) = spec_apply_elems(tpl, vals, m, i + 1);
                if e2 is Some {
                    (Seq::empty(), e2)
                } else {
                    (seq![c2] + rest, None)
                }
            },
        }
    }
}

/// The string-keyed fields carried by a map value, in order; entries with
/// non-string keys are ignored.
pub open spec fn spec_dict_fields(pairs: Seq<(ValueV, ValueV)>) -> Seq<(Seq<char>, ValueV)>
    decreases pairs,
{
    if pairs.len() == 0 {
        Seq::empty()
    } else {
        let rest = spec_dict_fields(pairs.drop_last());
        match pairs.last().0 {
            ValueV::String(k) => rest.push((k, pairs.last().1)),
            _ => rest,
        }
    }
}

/// The elements carried by a sequence-shaped value: a list, a tuple, or the
/// payload of a named tuple.
pub open spec fn spec_seq_elems(v: ValueV) -> Option<Seq<ValueV>> {
    match v {
        ValueV::List(l) => Some(l),
        ValueV::Tuple(l) => Some(l),
        ValueV::NamedTuple(_, l) => Some(l),
        _ => None,
    }
}

/// One reconciliation step: sets the container's `modified` flag and merges
/// the value into the node, per the node's kind. Scalar kind mismatches are
/// tolerated (the prior binding stays); an enum with no matching variant or
/// an array longer than its fixed templates fails, leaving the tree
/// partially updated up to the failing subtree.
pub open spec fn spec_apply(c: NodeContainerV, v: ValueV, m: bool) -> (
    NodeContainerV,
    Option<ReconciliationError>,
)
    decreases c, v, 1int,
{
    let cm = NodeContainerV { modified: m, ..c };
    match c.node {
        NodeV::Null => (cm, None),
        NodeV::Bool(b) => (
            NodeContainerV {
                node: match v {
                    ValueV::Bool(nv) => NodeV::Bool(Some(nv)),
                    _ => NodeV::Bool(b),
                },
                ..cm
            },
            None,
        ),
        NodeV::String(s) => (
            NodeContainerV {
                node: match v {
                    ValueV::String(nv) => NodeV::String(Some(nv)),
                    _ => NodeV::String(s),
                },
                ..cm
            },
            None,
        ),
        NodeV::Number(old_nv, old_s, kind) => (
            NodeContainerV {
                node: match v {
                    ValueV::Number(n) => NodeV::Number(
                        Some(spec_from_number(n)),
                        number_display(spec_from_number(n)),
                        kind,
                    ),
                    _ => NodeV::Number(old_nv, old_s, kind),
                },
                ..cm
            },
            None,
        ),
        NodeV::Value(lit) => (cm, None),
        NodeV::Any => (cm, None),
        NodeV::Object(entries0, tpl) => {
            match v {
                ValueV::Struct(_, fields) => {
                    let (entries1, e1) = spec_apply_fields(entries0, fields, 0);
                    if e1 is Some {
                        (NodeContainerV { node: NodeV::Object(entries1, tpl), ..cm }, e1)
                    } else {
                        match tpl {
                            Some(t) => {
                                let (entries2, e2) = spec_apply_extras(*t, entries1, fields, 0);
                                (NodeContainerV { node: NodeV::Object(entries2, tpl), ..cm }, e2)
                            },
                            None => (NodeContainerV { node: NodeV::Object(entries1, tpl), ..cm }, None),
                        }
                    }
                },
                ValueV::Dict(pairs) => {
                    let fields = spec_dict_fields(pairs);
                    let (entries1, e1) = spec_apply_fields(entries0, fields, 0);
                    if e1 is Some {
                        (NodeContainerV { node: NodeV::Object(entries1, tpl), ..cm }, e1)
                    } else {
                        match tpl {
                            Some(t) => {
                                let (entries2, e2) = spec_apply_extras(*t, entries1, fields, 0);
                                (NodeContainerV { node: NodeV::Object(entries2, tpl), ..cm }, e2)
                            },
                            None => (NodeContainerV { node: NodeV::Object(entries1, tpl), ..cm }, None),
                        }
                    }
                },
                ValueV::Empty => {
                    let (entries1, e1) = spec_apply_fields(entries0, Seq::empty(), 0);
                    (NodeContainerV { node: NodeV::Object(entries1, tpl), ..cm }, e1)
                },
                _ => (
                    NodeContainerV { node: NodeV::Object(spec_evict(entries0), tpl), ..cm },
                    None,
                ),
            }
        },
        NodeV::Enum(ns, sel) => {
            let pos = spec_match_index(ns, v, 0);
            if 0 <= pos && pos < ns.len() {
                let (c2, e) = spec_apply(ns[pos], v, m);
                (
                    NodeContainerV {
                        node: NodeV::Enum(ns.update(pos, c2), Some(pos)),
                        ..cm
                    },
                    e,
                )
            } else {
                (
                    NodeContainerV { node: NodeV::Enum(ns, sel), ..cm },
                    Some(ReconciliationError::NoMatchingVariant),
                )
            }
        },
        NodeV::Array(tpl, vals0) => match spec_seq_elems(v) {
            Some(vs) => {
                let fixed_mismatch = match tpl {
                    TemplateV::FirstN(ts) => ts.len() != vs.len(),
                    TemplateV::All(_) => false,
                };
                if fixed_mismatch {
                    (
                        NodeContainerV { node: NodeV::Array(tpl, vals0), ..cm },
                        Some(ReconciliationError::LengthMismatch),
                    )
                } else {
                    let (elems, e) = spec_apply_elems(tpl, vs, m, 0);
                    if e is Some {
                        (NodeContainerV { node: NodeV::Array(tpl, vals0), ..cm }, e)
                    } else {
                        (NodeContainerV { node: NodeV::Array(tpl, Some(elems)), ..cm }, None)
                    }
                }
            },
            None => (NodeContainerV { node: NodeV::Array(tpl, vals0), ..cm }, None),
        },
    }
}

/// Finds the first entry of `entries` named `k`.
pub(crate) fn entry_find(entries: &Vec<(String, NodeContainer)>, k: &String) -> (r: Option<usize>)
    ensures
        r is Some <==> entry_index(entries_view(entries@), k@) >= 0,
        r is Some ==> r->0 == entry_index(entries_view(entries@), k@) && r->0 < entries.len(),
{
    proof {
        lemma_entry_index(entries_view(entries@), k@);
    }
    let ghost es = entries_view(entries@);
    let mut i: usize = 0;
    while i < entries.len()
        invariant
            0 <= i <= entries.len(),
            es == entries_view(entries@),
            es.len() == entries@.len(),
            forall|j: int| 0 <= j < i ==> es[j].0 != k@,
            -1 <= entry_index(es, k@) < es.len(),
            entry_index(es, k@) >= 0 ==> es[entry_index(es, k@)].0 == k@,
            entry_index(es, k@) >= 0 ==> forall|j: int|
                0 <= j < entry_index(es, k@) ==> es[j].0 != k@,
            entry_index(es, k@) == -1 ==> forall|j: int| 0 <= j < es.len() ==> es[j].0 != k@,
        decreases entries.len() - i,
    {
        if entries[i].0.eq(k) {
            proof {
                assert(es[i as int].0 == k@);
            }
            return Some(i);
        }
        proof {
            assert(es[i as int].0 != k@);
        }
        i += 1;
    }
    None
}

/// Whether the declared fields, from `i` on, are all present in `fields`
/// and accept their values.
fn fields_match(
    entries: &Vec<(String, NodeContainer)>,
    fields: &FieldMap,
    i: usize,
) -> (r: bool)
    requires
        i <= entries.len(),
    ensures
        r == spec_fields_match(entries_view(entries@), fields@, i as int),
    decreases entries_view(entries@), fields@, entries@.len() - i,
{
    if i >= entries.len() {
        return true;
    }
    match field_find(fields, &entries[i].0) {
        Some(fi) => {
            proof {
                crate::merge::lemma_field_index(fields@, entries@[i as int].0@);
                assert(field_lookup(fields@, entries_view(entries@)[i as int].0)
                    == Some(fields@[fi as int].1));
                assert(entries_view(entries@)[i as int].1 == container_view(
                    entries@[i as int].1,
                ));
                assert(decreases_to!(entries_view(entries@) => entries_view(
                    entries@,
                )[i as int].1));
            }
            if is_matching(&entries[i].1, &fields.0[fi].1) {
                fields_match(entries, fields, i + 1)
            } else {
                false
            }
        },
        None => {
            proof {
                crate::merge::lemma_field_index(fields@, entries@[i as int].0@);
                assert(field_lookup(fields@, entries_view(entries@)[i as int].0) is None);
            }
            false
        },
    }
}

/// Whether the fixed templates accept a tuple's elements, from `i` on.
fn tuples_match(tpls: &Vec<NodeContainer>, vals: &Vec<Value>, i: usize) -> (r: bool)
    requires
        i <= tpls.len(),
    ensures
        r == spec_tuples_match(nodes_view(tpls@), views_of(vals@), i as int),
    decreases nodes_view(tpls@), views_of(vals@), tpls@.len() - i,
{
    if i >= tpls.len() || i >= vals.len() {
        return true;
    }
    proof {
        assert(nodes_view(tpls@)[i as int] == container_view(tpls@[i as int]));
        assert(decreases_to!(nodes_view(tpls@) => nodes_view(tpls@)[i as int]));
    }
    if is_matching(&tpls[i], &vals[i]) {
        tuples_match(tpls, vals, i + 1)
    } else {
        false
    }
}

/// Whether a node structurally accepts a value.
pub fn is_matching(c: &NodeContainer, v: &Value) -> (r: bool)
    ensures
        r == spec_is_matching(c@, v@),
    decreases c@, v@, 0int,
{
    match &c.node {
        Node::Null => v.is_null(),
        Node::Bool(_) => matches!(v, Value::Bool(_)),
        Node::String(_) => matches!(v, Value::String(_)),
        Node::Number(_) => matches!(v, Value::Number(_)),
        Node::Object(o) => {
            proof {
                assert(c@.node == node_view(c.node));
                assert(decreases_to!(c@ => c@.node));
                assert(c@.node->Object_0 == entries_view(o.nodes@));
            }
            match v {
                Value::Struct(_, fields) => fields_match(&o.nodes, fields, 0),
                Value::NamedTuple(name, _) => {
                    match entry_find(&o.nodes, name) {
                        Some(i) => {
                            proof {
                                assert(entries_view(o.nodes@)[i as int].1 == container_view(
                                    o.nodes@[i as int].1,
                                ));
                                assert(decreases_to!(c@.node->Object_0 => entries_view(
                                    o.nodes@,
                                )[i as int].1));
                            }
                            is_matching(&o.nodes[i].1, v)
                        },
                        None => false,
                    }
                },
                _ => false,
            }
        },
        Node::Enum(_) => false,
        Node::Array(a) => {
            proof {
                assert(c@.node == node_view(c.node));
                assert(decreases_to!(c@ => c@.node));
                assert(c@.node->Array_0 == template_view(a.template));
            }
            match &a.template {
                NodeArrayTemplate::All(_) => {
                    matches!(v, Value::List(_) | Value::Tuple(_) | Value::NamedTuple(_, _))
                },
                NodeArrayTemplate::FirstN(ts) => {
                    proof {
                        assert(template_view(a.template)->FirstN_0 == nodes_view(ts@));
                        assert(decreases_to!(c@.node->Array_0 => nodes_view(ts@)));
                    }
                    match v {
                        Value::Tuple(vs) => {
                            if ts.len() == vs.len() {
                                tuples_match(ts, vs, 0)
                            } else {
                                false
                            }
                        },
                        Value::NamedTuple(_, vs) => {
                            if ts.len() == vs.len() {
                                tuples_match(ts, vs, 0)
                            } else {
                                false
                            }
                        },
                        _ => false,
                    }
                },
            }
        },
        Node::Value(lit) => crate::eq::value_eq(&lit.value, v),
        Node::Any => true,
    }
}

/// Index of the first enum variant, from `i` on, accepting `v`.
fn match_index(ns: &Vec<NodeContainer>, v: &Value, i: usize) -> (r: Option<usize>)
    requires
        i <= ns.len(),
    ensures
        r is Some <==> spec_match_index(nodes_view(ns@), v@, i as int) >= 0,
        r is Some ==> r->0 == spec_match_index(nodes_view(ns@), v@, i as int) && r->0 < ns.len(),
    decreases nodes_view(ns@), v@, ns@.len() - i,
{
    if i >= ns.len() {
        return None;
    }
    proof {
        assert(nodes_view(ns@)[i as int] == container_view(ns@[i as int]));
        assert(decreases_to!(nodes_view(ns@) => nodes_view(ns@)[i as int]));
    }
    if is_matching(&ns[i], v) {
        Some(i)
    } else {
        match_index(ns, v, i + 1)
    }
}

/// The evicted tail of an entry vector, from `from` on: template-instantiated
/// entries dropped, the rest deep-copied.
fn evict_suffix(entries: &Vec<(String, NodeContainer)>, from: usize) -> (r: Vec<
    (String, NodeContainer),
>)
    requires
        from <= entries.len(),
    ensures
        entries_view(r@) == spec_evict(
            entries_view(entries@).subrange(from as int, entries@.len() as int),
        ),
{
    let ghost es = entries_view(entries@);
    let mut out: Vec<(String, NodeContainer)> = Vec::new();
    let mut i: usize = from;
    while i < entries.len()
        invariant
            from <= i <= entries.len(),
            es == entries_view(entries@),
            es.len() == entries@.len(),
            entries_view(out@) == spec_evict(es.subrange(from as int, i as int)),
        decreases entries.len() - i,
    {
        let ghost pre = entries_view(out@);
        if !entries[i].1.removable {
            let k = entries[i].0.clone();
            let c = container_dup(&entries[i].1);
            let ghost old_o = out@;
            out.push((k, c));
            proof {
                assert(forall|j: int|
                    0 <= j < old_o.len() ==> #[trigger] entries_view(out@)[j] == entries_view(
                        old_o,
                    )[j]);
                assert(entries_view(out@)[old_o.len() as int] == (k@, c@));
                assert(entries_view(out@) =~= pre.push((es[i as int].0, es[i as int].1)));
            }
        }
        proof {
            assert(es.subrange(from as int, i + 1).drop_last() =~= es.subrange(
                from as int,
                i as int,
            ));
            assert(es.subrange(from as int, i + 1).last() == es[i as int]);
        }
        i += 1;
    }
    proof {
        assert(es.subrange(from as int, es.len() as int) =~= es.subrange(
            from as int,
            entries@.len() as int,
        ));
    }
    out
}

/// Processes the declared fields from `i` on: evicts template-instantiated
/// entries and reconciles each surviving field with its incoming value
/// (marked modified) or its schema default (unmodified).
fn apply_fields(
    entries: &Vec<(String, NodeContainer)>,
    fields: &FieldMap,
    i: usize,
) -> (r: (Vec<(String, NodeContainer)>, Option<ReconciliationError>))
    requires
        i <= entries.len(),
    ensures
        (entries_view(r.0@), r.1) == spec_apply_fields(
            entries_view(entries@),
            fields@,
            i as int,
        ),
    decreases entries_view(entries@), fields@, entries@.len() - i,
{
    let ghost es = entries_view(entries@);
    if i >= entries.len() {
        proof {
            assert(entries_view(Seq::<(String, NodeContainer)>::empty()) =~= Seq::<
                (Seq<char>, NodeContainerV),
            >::empty());
        }
        return (Vec::new(), None);
    }
    if entries[i].1.removable {
        return apply_fields(entries, fields, i + 1);
    }
    let key = &entries[i].0;
    proof {
        assert(es[i as int].1 == container_view(entries@[i as int].1));
        assert(decreases_to!(es => es[i as int].1));
    }
    let (c2, e): (NodeContainer, Option<ReconciliationError>) = match field_find(fields, key) {
        Some(fi) => {
            proof {
                crate::merge::lemma_field_index(fields@, entries@[i as int].0@);
                assert(field_lookup(fields@, es[i as int].0) == Some(fields@[fi as int].1));
            }
            apply_node(&entries[i].1, &fields.0[fi].1, true)
        },
        None => {
            proof {
                crate::merge::lemma_field_index(fields@, entries@[i as int].0@);
                assert(field_lookup(fields@, es[i as int].0) is None);
            }
            match &entries[i].1.default {
                Some(d) => {
                    let dv = crate::eq::value_dup(d);
                    apply_node(&entries[i].1, &dv, false)
                },
                None => (container_dup(&entries[i].1), None),
            }
        },
    };
    if e.is_some() {
        let mut tail = evict_suffix(entries, i + 1);
        tail.insert(0, (key.clone(), c2));
        proof {
            assert(entries_view(tail@) =~= seq![(es[i as int].0, c2@)] + spec_evict(
                es.subrange(i + 1, es.len() as int),
            ));
        }
        (tail, e)
    } else {
        let (mut rest, e2) = apply_fields(entries, fields, i + 1);
        rest.insert(0, (key.clone(), c2));
        proof {
            assert(entries_view(rest@) =~= seq![(es[i as int].0, c2@)]
                + spec_apply_fields(es, fields@, i + 1).0);
        }
        (rest, e2)
    }
}

/// Instantiates the homogeneous template once per incoming key outside the
/// declared field set, from `j` on, inserting the reconciled copies, marked
/// modified and removable, in key order.
fn apply_extras(
    template: &NodeContainer,
    entries: Vec<(String, NodeContainer)>,
    fields: &FieldMap,
    j: usize,
) -> (r: (Vec<(String, NodeContainer)>, Option<ReconciliationError>))
    requires
        j <= fields.0.len(),
    ensures
        (entries_view(r.0@), r.1) == spec_apply_extras(
            template@,
            entries_view(entries@),
            fields@,
            j as int,
        ),
    decreases template@, fields@, fields@.len() - j,
{
    if j >= fields.0.len() {
        return (entries, None);
    }
    let key = &fields.0[j].0;
    let found = entry_find(&entries, key);
    let declared = match found {
        Some(idx) => !entries[idx].1.removable,
        None => false,
    };
    if declared {
        return apply_extras(template, entries, fields, j + 1);
    }
    proof {
        assert(fields@[j as int].1 == crate::value::value_view(fields.0@[j as int].1));
        assert(decreases_to!(fields@ => fields@[j as int].1));
    }
    let (t2, e) = apply_node(template, &fields.0[j].1, true);
    if e.is_some() {
        return (entries, e);
    }
    let inst = NodeContainer { removable: true, ..t2 };
    proof {
        assert(inst@ == (NodeContainerV { removable: true, ..t2@ }));
    }
    let mut acc = entries;
    let ghost acc0 = entries_view(acc@);
    match found {
        Some(idx) => {
            let kd = acc[idx].0.clone();
            let ghost pre = entries_view(acc@);
            *vec_index_mut(&mut acc, idx) = (kd, inst);
            proof {
                assert(entries_view(acc@) =~= pre.update(
                    idx as int,
                    (pre[idx as int].0, (NodeContainerV { removable: true, ..t2@ })),
                ));
            }
        },
        None => {
            let ghost pre = entries_view(acc@);
            acc.push((fields.0[j].0.clone(), inst));
            proof {
                assert(entries_view(acc@) =~= pre.push((
                    fields.0@[j as int].0@,
                    (NodeContainerV { removable: true, ..t2@ }),
                )));
            }
        },
    }
    proof {
        assert(entries_view(acc@) == entry_upsert(
            acc0,
            fields@[j as int].0,
            (NodeContainerV { removable: true, ..t2@ }),
        ));
    }
    apply_extras(template, acc, fields, j + 1)
}

/// Reconciles a sequence-shaped value's elements against the array
/// template(s), from `i` on.
fn apply_elems(tpl: &NodeArrayTemplate, vals: &Vec<Value>, m: bool, i: usize) -> (r: (
    Vec<NodeContainer>,
    Option<ReconciliationError>,
))
    requires
        i <= vals.len(),
    ensures
        (nodes_view(r.0@), r.1) == spec_apply_elems(
            template_view(*tpl),
            views_of(vals@),
            m,
            i as int,
        ),
    decreases template_view(*tpl), views_of(vals@), vals@.len() - i,
{
    if i >= vals.len() {
        proof {
            assert(nodes_view(Seq::<NodeContainer>::empty()) =~= Seq::<NodeContainerV>::empty());
        }
        return (Vec::new(), None);
    }
    let t: NodeContainer = match tpl {
        NodeArrayTemplate::All(t) => {
            let d = container_dup(t);
            proof {
                assert(template_view(*tpl)->All_0 == Box::new(container_view(**t)));
                assert(decreases_to!(template_view(*tpl) => template_view(*tpl)->All_0));
                assert(d@ == container_view(**t));
            }
            d
        },
        NodeArrayTemplate::FirstN(ts) => {
            if i < ts.len() {
                let d = container_dup(&ts[i]);
                proof {
                    assert(template_view(*tpl)->FirstN_0 == nodes_view(ts@));
                    assert(nodes_view(ts@)[i as int] == container_view(ts@[i as int]));
                    assert(decreases_to!(template_view(*tpl) => nodes_view(ts@)[i as int]));
                    assert(d@ == nodes_view(ts@)[i as int]);
                }
                d
            } else {
                proof {
                    assert(nodes_view(Seq::<NodeContainer>::empty()) =~= Seq::<
                        NodeContainerV,
                    >::empty());
                }
                return (Vec::new(), Some(ReconciliationError::LengthMismatch));
            }
        },
    };
    proof {
        assert(views_of(vals@)[i as int] == crate::value::value_view(vals@[i as int]));
    }
    let (c2, e) = apply_node(&t, &vals[i], m);
    if e.is_some() {
        proof {
            assert(nodes_view(Seq::<NodeContainer>::empty()) =~= Seq::<NodeContainerV>::empty());
        }
        return (Vec::new(), e);
    }
    let (mut rest, e2) = apply_elems(tpl, vals, m, i + 1);
    if e2.is_some() {
        proof {
            assert(nodes_view(Seq::<NodeContainer>::empty()) =~= Seq::<NodeContainerV>::empty());
        }
        return (Vec::new(), e2);
    }
    rest.insert(0, c2);
    proof {
        assert(nodes_view(rest@) =~= seq![c2@] + spec_apply_elems(
            template_view(*tpl),
            views_of(vals@),
            m,
            i + 1,
        ).0);
    }
    (rest, None)
}

/// Extracts the string-keyed fields of a map value, in order.
fn dict_to_fields(m: &ValueMap) -> (r: FieldMap)
    ensures
        r@ == spec_dict_fields(m@),
{
    let ghost ps = m@;
    let mut out: Vec<(String, Value)> = Vec::new();
    let mut i: usize = 0;
    while i < m.0.len()
        invariant
            0 <= i <= m.0.len(),
            ps == m@,
            ps.len() == m.0@.len(),
            crate::value::fields_view(out@) == spec_dict_fields(ps.take(i as int)),
        decreases m.0.len() - i,
    {
        let ghost pre = crate::value::fields_view(out@);
        if let Value::String(k) = &m.0[i].0 {
            let ghost old_o = out@;
            let kd = k.clone();
            let vd = crate::eq::value_dup(&m.0[i].1);
            out.push((kd, vd));
            proof {
                assert(forall|j: int|
                    0 <= j < old_o.len() ==> #[trigger] crate::value::fields_view(out@)[j]
                        == crate::value::fields_view(old_o)[j]);
                assert(crate::value::fields_view(out@)[old_o.len() as int] == (kd@, vd@));
                assert(crate::value::fields_view(out@) =~= pre.push((
                    ps[i as int].0->String_0,
                    ps[i as int].1,
                )));
            }
        }
        proof {
            assert(ps.take(i + 1).drop_last() =~= ps.take(i as int));
            assert(ps.take(i + 1).last() == ps[i as int]);
        }
        i += 1;
    }
    proof {
        assert(ps.take(ps.len() as int) =~= ps);
    }
    FieldMap(out)
}

/// One reconciliation step on a fresh copy of the container: the copy's
/// `modified` flag is set and the value is merged per the node's kind.
#[verifier::rlimit(100)]
fn apply_node(c: &NodeContainer, v: &Value, m: bool) -> (r: (
    NodeContainer,
    Option<ReconciliationError>,
))
    ensures
        (r.0@, r.1) == spec_apply(c@, v@, m),
    decreases c@, v@, 1int,
{
    let default = match &c.default {
        Some(d) => Some(crate::eq::value_dup(d)),
        None => None,
    };
    let title = match &c.title {
        Some(t) => Some(t.clone()),
        None => None,
    };
    let description = match &c.description {
        Some(d) => Some(d.clone()),
        None => None,
    };
    match &c.node {
        Node::Null => (
            NodeContainer {
                node: Node::Null,
                default,
                modified: m,
                removable: c.removable,
                title,
                description,
            },
            None,
        ),
        Node::Bool(b) => {
            let nb = match v {
                Value::Bool(nv) => NodeBool { value: Some(*nv) },
                _ => NodeBool { value: b.value },
            };
            (
                NodeContainer {
                    node: Node::Bool(nb),
                    default,
                    modified: m,
                    removable: c.removable,
                    title,
                    description,
                },
                None,
            )
        },
        Node::String(s) => {
            let ns = match v {
                Value::String(nv) => NodeString { value: Some(nv.clone()) },
                _ => NodeString {
                    value: match &s.value {
                        Some(x) => Some(x.clone()),
                        None => None,
                    },
                },
            };
            (
                NodeContainer {
                    node: Node::String(ns),
                    default,
                    modified: m,
                    removable: c.removable,
                    title,
                    description,
                },
                None,
            )
        },
        Node::Number(x) => {
            let nn = match v {
                Value::Number(n) => {
                    let nv = NumberValue::from_number(n);
                    NodeNumber { value: Some(nv), value_string: render_number(&nv), kind: x.kind }
                },
                _ => NodeNumber {
                    value: x.value,
                    value_string: x.value_string.clone(),
                    kind: x.kind,
                },
            };
            (
                NodeContainer {
                    node: Node::Number(nn),
                    default,
                    modified: m,
                    removable: c.removable,
                    title,
                    description,
                },
                None,
            )
        },
        Node::Value(lit) => (
            NodeContainer {
                node: Node::Value(crate::node::NodeValue { value: crate::eq::value_dup(&lit.value) }),
                default,
                modified: m,
                removable: c.removable,
                title,
                description,
            },
            None,
        ),
        Node::Any => (
            NodeContainer {
                node: Node::Any,
                default,
                modified: m,
                removable: c.removable,
                title,
                description,
            },
            None,
        ),
        Node::Object(o) => {
            proof {
                assert(c@.node == node_view(c.node));
                assert(decreases_to!(c@ => c@.node));
                assert(c@.node->Object_0 == entries_view(o.nodes@));
                assert(match o.template {
                    Some(b) => c@.node->Object_1 == Some(Box::new(container_view(*b))),
                    None => c@.node->Object_1 is None,
                });
            }
            let tpl2 = match &o.template {
                Some(t) => Some(Box::new(container_dup(t))),
                None => None,
            };
            let (entries2, err): (Vec<(String, NodeContainer)>, Option<ReconciliationError>) =
                match v {
                Value::Struct(_, fields) => {
                    let (entries1, e1) = apply_fields(&o.nodes, fields, 0);
                    if e1.is_some() {
                        (entries1, e1)
                    } else {
                        match &o.template {
                            Some(t) => {
                                proof {
                                    assert(decreases_to!(c@.node => c@.node->Object_1));
                                    assert(decreases_to!(c@.node->Object_1 => c@.node
                                        ->Object_1->0));
                                    assert(container_view(**t) == *c@.node->Object_1->0);
                                }
                                apply_extras(t, entries1, fields, 0)
                            },
                            None => (entries1, None),
                        }
                    }
                },
                Value::Dict(pairs) => {
                    let fm = dict_to_fields(pairs);
                    let (entries1, e1) = apply_fields(&o.nodes, &fm, 0);
                    if e1.is_some() {
                        (entries1, e1)
                    } else {
                        match &o.template {
                            Some(t) => {
                                proof {
                                    assert(decreases_to!(c@.node => c@.node->Object_1));
                                    assert(decreases_to!(c@.node->Object_1 => c@.node
                                        ->Object_1->0));
                                    assert(container_view(**t) == *c@.node->Object_1->0);
                                }
                                apply_extras(t, entries1, &fm, 0)
                            },
                            None => (entries1, None),
                        }
                    }
                },
                Value::Empty => {
                    let empty_fields = FieldMap(Vec::new());
                    proof {
                        assert(empty_fields@ =~= Seq::<(Seq<char>, ValueV)>::empty());
                    }
                    apply_fields(&o.nodes, &empty_fields, 0)
                },
                _ => (evict_suffix(&o.nodes, 0), None),
            };
            proof {
                assert(entries_view(o.nodes@).subrange(0, entries_view(o.nodes@).len() as int)
                    =~= entries_view(o.nodes@));
            }
            (
                NodeContainer {
                    node: Node::Object(NodeObject { nodes: entries2, template: tpl2 }),
                    default,
                    modified: m,
                    removable: c.removable,
                    title,
                    description,
                },
                err,
            )
        },
        Node::Enum(en) => {
            proof {
                assert(c@.node == node_view(c.node));
                assert(decreases_to!(c@ => c@.node));
                assert(c@.node->Enum_0 == nodes_view(en.nodes@));
            }
            match match_index(&en.nodes, v, 0) {
                Some(pos) => {
                    proof {
                        assert(nodes_view(en.nodes@)[pos as int] == container_view(
                            en.nodes@[pos as int],
                        ));
                        assert(decreases_to!(c@.node->Enum_0 => nodes_view(
                            en.nodes@,
                        )[pos as int]));
                    }
                    let (c2, e) = apply_node(&en.nodes[pos], v, m);
                    let mut ns2 = containers_dup(&en.nodes);
                    let ghost pre = nodes_view(ns2@);
                    *vec_index_mut(&mut ns2, pos) = c2;
                    proof {
                        assert(nodes_view(ns2@) =~= pre.update(pos as int, c2@));
                    }
                    (
                        NodeContainer {
                            node: Node::Enum(NodeEnum { nodes: ns2, value: Some(pos) }),
                            default,
                            modified: m,
                            removable: c.removable,
                            title,
                            description,
                        },
                        e,
                    )
                },
                None => (
                    NodeContainer {
                        node: Node::Enum(
                            NodeEnum { nodes: containers_dup(&en.nodes), value: en.value },
                        ),
                        default,
                        modified: m,
                        removable: c.removable,
                        title,
                        description,
                    },
                    Some(ReconciliationError::NoMatchingVariant),
                ),
            }
        },
        Node::Array(a) => {
            proof {
                assert(c@.node == node_view(c.node));
                assert(decreases_to!(c@ => c@.node));
                assert(c@.node->Array_0 == template_view(a.template));
            }
            let tpl2 = match &a.template {
                NodeArrayTemplate::All(t) => NodeArrayTemplate::All(Box::new(container_dup(t))),
                NodeArrayTemplate::FirstN(ts) => NodeArrayTemplate::FirstN(containers_dup(ts)),
            };
            proof {
                assert(template_view(tpl2) == template_view(a.template));
            }
            let elems: Option<&Vec<Value>> = match v {
                Value::List(l) => Some(l),
                Value::Tuple(l) => Some(l),
                Value::NamedTuple(_, l) => Some(l),
                _ => None,
            };
            match elems {
                Some(vs) => {
                    let fixed_mismatch = match &a.template {
                        NodeArrayTemplate::FirstN(ts) => ts.len() != vs.len(),
                        NodeArrayTemplate::All(_) => false,
                    };
                    if fixed_mismatch {
                        proof {
                            assert(spec_seq_elems(v@) == Some(views_of(vs@)));
                            assert(match a.values {
                                Some(ov) => c@.node->Array_1 == Some(nodes_view(ov@)),
                                None => c@.node->Array_1 is None,
                            });
                        }
                        let old_vals = match &a.values {
                            Some(ov) => Some(containers_dup(ov)),
                            None => None,
                        };
                        return (
                            NodeContainer {
                                node: Node::Array(NodeArray { template: tpl2, values: old_vals }),
                                default,
                                modified: m,
                                removable: c.removable,
                                title,
                                description,
                            },
                            Some(ReconciliationError::LengthMismatch),
                        );
                    }
                    let (new_vals, e) = apply_elems(&a.template, vs, m, 0);
                    if e.is_some() {
                        let old_vals = match &a.values {
                            Some(ov) => Some(containers_dup(ov)),
                            None => None,
                        };
                        (
                            NodeContainer {
                                node: Node::Array(NodeArray { template: tpl2, values: old_vals }),
                                default,
                                modified: m,
                                removable: c.removable,
                                title,
                                description,
                            },
                            e,
                        )
                    } else {
                        (
                            NodeContainer {
                                node: Node::Array(
                                    NodeArray { template: tpl2, values: Some(new_vals) },
                                ),
                                default,
                                modified: m,
                                removable: c.removable,
                                title,
                                description,
                            },
                            None,
                        )
                    }
                },
                None => {
                    let old_vals = match &a.values {
                        Some(ov) => Some(containers_dup(ov)),
                        None => None,
                    };
                    (
                        NodeContainer {
                            node: Node::Array(NodeArray { template: tpl2, values: old_vals }),
                            default,
                            modified: m,
                            removable: c.removable,
                            title,
                            description,
                        },
                        None,
                    )
                },
            }
        },
    }
}

impl NodeContainer {
    /// Merges an incoming generic value into this tree: sets the `modified`
    /// flag on every visited container, binds matching scalars, reconciles
    /// objects field-wise (with defaulting and template expansion), selects
    /// the first matching enum variant, and rebuilds array elements. On
    /// failure the tree is left partially updated up to the failing subtree.
    pub fn apply_value(&mut self, value: &Value, modified: bool) -> (r: Result<
        (),
        ReconciliationError,
    >)
        ensures
            final(self)@ == spec_apply(old(self)@, value@, modified).0,
            (r is Ok) == (spec_apply(old(self)@, value@, modified).1 is None),
            r is Err ==> Some(r->Err_0) == spec_apply(old(self)@, value@, modified).1,
    {
        let (c2, e) = apply_node(self, value, modified);
        *self = c2;
        match e {
            None => Ok(()),
            Some(err) => Err(err),
        }
    }
}

} // verus!
