//! The library's laws, stated and proved over the mathematical model: the
//! merge identities and the reconciler's round-trip guarantee.

use vstd::prelude::*;

use crate::apply::{
    entry_index, spec_apply, spec_apply_elems, spec_apply_extras, spec_apply_fields,
    spec_dict_fields, spec_match_index, spec_seq_elems, entry_upsert,
};
use crate::merge::{
    field_index, field_lookup, spec_merge, struct_insert_merge, struct_merge,
};
use crate::node::{NodeContainerV, NodeV, TemplateV};
use crate::number::{spec_from_number, spec_to_number, Number};
use crate::to_value::{spec_project_dict, spec_project_elems, spec_project_fields, spec_to_value};
use crate::value::ValueV;

verus! {

/// `Empty` is a two-sided identity of merge: merging any value with `Empty`,
/// on either side, returns that value.
pub proof fn lemma_merge_empty_identity(a: ValueV)
    ensures
        spec_merge(a, ValueV::Empty) == a,
        spec_merge(ValueV::Empty, a) == a,
{
}

/// Merge is right-biased on scalars: of two booleans the right one wins.
pub proof fn lemma_merge_right_bias(x: bool, y: bool)
    ensures
        spec_merge(ValueV::Bool(x), ValueV::Bool(y)) == ValueV::Bool(y),
{
}

/// Whether the field names of `s` are pairwise distinct.
pub open spec fn distinct_field_keys(s: Seq<(Seq<char>, ValueV)>) -> bool {
    forall|i: int, j: int| 0 <= i < j < s.len() ==> (#[trigger] s[i].0) != (#[trigger] s[j].0)
}

proof fn lemma_field_index_update_same_key(s: Seq<(Seq<char>, ValueV)>, i: int, x: ValueV, k: Seq<char>)
    requires
        0 <= i < s.len(),
    ensures
        field_index(s.update(i, (s[i].0, x)), k) == field_index(s, k),
    decreases s.len(),
{
    let su = s.update(i, (s[i].0, x));
    assert(su.len() == s.len());
    assert(su[0].0 == s[0].0);
    if s.len() > 0 && s[0].0 != k {
        if i == 0 {
            assert(su.drop_first() =~= s.drop_first());
        } else {
            assert(su.drop_first() =~= s.drop_first().update(i - 1, (s.drop_first()[i - 1].0, x)));
            lemma_field_index_update_same_key(s.drop_first(), i - 1, x, k);
        }
    }
}

proof fn lemma_field_index_push(s: Seq<(Seq<char>, ValueV)>, kv: (Seq<char>, ValueV), k: Seq<char>)
    ensures
        field_index(s, k) >= 0 ==> field_index(s.push(kv), k) == field_index(s, k),
        field_index(s, k) == -1 && kv.0 == k ==> field_index(s.push(kv), k) == s.len(),
        field_index(s, k) == -1 && kv.0 != k ==> field_index(s.push(kv), k) == -1,
    decreases s.len(),
{
    crate::merge::lemma_field_index(s, k);
    let sp = s.push(kv);
    if s.len() == 0 {
        assert(sp[0] == kv);
        assert(sp.drop_first() =~= Seq::<(Seq<char>, ValueV)>::empty());
        assert(field_index(sp.drop_first(), k) == -1);
        if kv.0 == k {
            assert(field_index(sp, k) == 0);
        } else {
            assert(field_index(sp, k) == -1);
        }
    } else {
        assert(sp[0] == s[0]);
        assert(sp.drop_first() =~= s.drop_first().push(kv));
        lemma_field_index_push(s.drop_first(), kv, k);
        let rs = field_index(s.drop_first(), k);
        let rsp = field_index(sp.drop_first(), k);
        if s[0].0 == k {
            assert(field_index(s, k) == 0);
            assert(field_index(sp, k) == 0);
        } else {
            crate::merge::lemma_field_index(s.drop_first(), k);
            if rs >= 0 {
                assert(field_index(s, k) == rs + 1);
                assert(rsp == rs);
                assert(field_index(sp, k) == rs + 1);
            } else {
                assert(field_index(s, k) == -1);
                if kv.0 == k {
                    assert(rsp == s.drop_first().len());
                    assert(field_index(sp, k) == rsp + 1);
                } else {
                    assert(rsp == -1);
                    assert(field_index(sp, k) == -1);
                }
            }
        }
    }
}

proof fn lemma_lookup_insert_merge(s1: Seq<(Seq<char>, ValueV)>, kv: (Seq<char>, ValueV), k: Seq<char>)
    ensures
        kv.0 == k ==> field_lookup(struct_insert_merge(s1, kv), k) == (match field_lookup(s1, k) {
            Some(v1) => Some(spec_merge(v1, kv.1)),
            None => Some(kv.1),
        }),
        kv.0 != k ==> field_lookup(struct_insert_merge(s1, kv), k) == field_lookup(s1, k),
{
    crate::merge::lemma_field_index(s1, kv.0);
    crate::merge::lemma_field_index(s1, k);
    let i = field_index(s1, kv.0);
    if i >= 0 {
        lemma_field_index_update_same_key(s1, i, spec_merge(s1[i].1, kv.1), k);
        assert(s1[i].0 == kv.0);
        if kv.0 == k {
            assert(field_index(s1, k) == i);
        }
    } else {
        lemma_field_index_push(s1, kv, k);
    }
}

proof fn lemma_struct_merge_lookup(
    s1: Seq<(Seq<char>, ValueV)>,
    s2: Seq<(Seq<char>, ValueV)>,
    k: Seq<char>,
)
    requires
        distinct_field_keys(s2),
    ensures
        field_lookup(struct_merge(s1, s2), k) == (match (field_lookup(s1, k), field_lookup(
            s2,
            k,
        )) {
            (Some(v1), Some(v2)) => Some(spec_merge(v1, v2)),
            (Some(v1), None) => Some(v1),
            (None, Some(v2)) => Some(v2),
            (None, None) => None,
        }),
    decreases s2.len(),
{
    crate::merge::lemma_field_index(s2, k);
    if s2.len() == 0 {
    } else {
        let s1p = struct_insert_merge(s1, s2[0]);
        let s2p = s2.drop_first();
        assert(distinct_field_keys(s2p)) by {
            assert(forall|i: int, j: int|
                0 <= i < j < s2p.len() ==> s2p[i] == s2[i + 1] && s2p[j] == s2[j + 1]);
        }
        lemma_struct_merge_lookup(s1p, s2p, k);
        lemma_lookup_insert_merge(s1, s2[0], k);
        crate::merge::lemma_field_index(s2p, k);
        if s2[0].0 == k {
            // the key cannot recur in the tail, so the tail's lookup is empty
            assert(forall|j: int| 0 <= j < s2p.len() ==> s2p[j] == s2[j + 1]);
            assert(field_index(s2p, k) == -1) by {
                crate::merge::lemma_field_index(s2p, k);
                if field_index(s2p, k) >= 0 {
                    assert(s2p[field_index(s2p, k)].0 == k);
                    assert(s2[field_index(s2p, k) + 1].0 == k);
                    assert(s2[0].0 == s2[field_index(s2p, k) + 1].0);
                }
            }
            assert(field_index(s2, k) == 0);
        } else {
            // shifting off the head preserves the lookup for other keys
            assert(forall|j: int| 0 <= j < s2p.len() ==> s2p[j] == s2[j + 1]);
            if field_index(s2, k) >= 0 {
                assert(field_index(s2p, k) == field_index(s2, k) - 1);
            }
        }
    }
}

/// Merging two structs unions their keys: a key bound on both sides maps to
/// the recursive merge of the two values, a key bound on one side keeps its
/// value, and the right tag wins when present.
pub proof fn lemma_merge_struct_union(
    id1: Option<Seq<char>>,
    m1: Seq<(Seq<char>, ValueV)>,
    id2: Option<Seq<char>>,
    m2: Seq<(Seq<char>, ValueV)>,
    k: Seq<char>,
)
    requires
        distinct_field_keys(m2),
    ensures
        spec_merge(ValueV::Struct(id1, m1), ValueV::Struct(id2, m2)) == ValueV::Struct(
            if id2 is Some {
                id2
            } else {
                id1
            },
            struct_merge(m1, m2),
        ),
        field_lookup(struct_merge(m1, m2), k) == (match (field_lookup(m1, k), field_lookup(
            m2,
            k,
        )) {
            (Some(v1), Some(v2)) => Some(spec_merge(v1, v2)),
            (Some(v1), None) => Some(v1),
            (None, Some(v2)) => Some(v2),
            (None, None) => None,
        }),
{
    lemma_struct_merge_lookup(m1, m2, k);
}

/// A value is compatible with a schema position when the reconciler can bind
/// it losslessly: scalars of the position's kind, a struct supplying at
/// least one declared field, each supplied field compatible (absent ones
/// falling back to a cleanly applying default, or to a field with nothing to
/// emit), a non-empty map over a template accepting every entry, a sequence
/// matched element-wise by the template(s), or a value some enum variant
/// accepts compatibly. An entirely unsupplied object serializes to nothing
/// and so cannot round-trip.
pub open spec fn spec_compatible(c: NodeContainerV, v: ValueV) -> bool
    decreases c, v, 2int,
{
    match c.node {
        NodeV::Null => v == ValueV::Option(None::<Box<ValueV>>),
        NodeV::Bool(_) => v is Bool,
        NodeV::String(_) => v is String,
        NodeV::Number(_, _, _) => v is Number,
        NodeV::Value(lit) => v == lit,
        NodeV::Any => false,
        NodeV::Enum(ns, _) => {
            let pos = spec_match_index(ns, v, 0);
            0 <= pos < ns.len() && spec_compatible(ns[pos], v)
        },
        NodeV::Array(tpl, _) => match tpl {
            TemplateV::All(t) => match v {
                ValueV::List(vs) => compat_elems_all(*t, vs, 0),
                _ => false,
            },
            TemplateV::FirstN(ts) => match v {
                ValueV::Tuple(vs) => ts.len() == vs.len() && compat_elems_firstn(ts, vs, 0),
                _ => false,
            },
        },
        NodeV::Object(entries, tpl) => match tpl {
            None => match v {
                ValueV::Struct(_, fields) => compat_fields(entries, fields, 0)
                    && has_present_field(entries, fields, 0),
                _ => false,
            },
            Some(t) => match v {
                ValueV::Dict(pairs) => {
                    &&& all_removable(entries)
                    &&& all_string_keys(pairs)
                    &&& spec_dict_fields(pairs).len() > 0
                    &&& distinct_field_keys(spec_dict_fields(pairs))
                    &&& compat_dict(*t, spec_dict_fields(pairs), 0)
                },
                _ => false,
            },
        },
    }
}

/// Whether some declared (non-template-instantiated) field from `i` on is
/// supplied by the incoming fields: only then does the object emit anything.
pub open spec fn has_present_field(
    entries: Seq<(Seq<char>, NodeContainerV)>,
    fields: Seq<(Seq<char>, ValueV)>,
    i: int,
) -> bool
    decreases entries.len() - i,
{
    if i < 0 || i >= entries.len() {
        false
    } else if !entries[i].1.removable && field_lookup(fields, entries[i].0) is Some {
        true
    } else {
        has_present_field(entries, fields, i + 1)
    }
}

/// Whether every entry is template-instantiated (about to be evicted).
pub open spec fn all_removable(entries: Seq<(Seq<char>, NodeContainerV)>) -> bool {
    forall|i: int| 0 <= i < entries.len() ==> (#[trigger] entries[i]).1.removable
}

/// Whether every key of a map value is a string.
pub open spec fn all_string_keys(pairs: Seq<(ValueV, ValueV)>) -> bool {
    forall|i: int| 0 <= i < pairs.len() ==> (#[trigger] pairs[i]).0 is String
}

/// Compatibility of a struct's fields with an object's declared entries,
/// from position `i` on.
pub open spec fn compat_fields(
    entries: Seq<(Seq<char>, NodeContainerV)>,
    fields: Seq<(Seq<char>, ValueV)>,
    i: int,
) -> bool
    decreases entries, fields, entries.len() - i,
{
    if i < 0 || i >= entries.len() {
        true
    } else if entries[i].1.removable {
        compat_fields(entries, fields, i + 1)
    } else {
        let this_ok = match field_lookup(fields, entries[i].0) {
            Some(val) => spec_compatible(entries[i].1, val),
            None => match entries[i].1.default {
                Some(d) => spec_apply(entries[i].1, d, false).1 is None,
                None => spec_to_value(entries[i].1) is None,
            },
        };
        this_ok && compat_fields(entries, fields, i + 1)
    }
}

/// Compatibility of every map entry's value with the homogeneous template,
/// from position `j` on.
pub open spec fn compat_dict(
    t: NodeContainerV,
    fields: Seq<(Seq<char>, ValueV)>,
    j: int,
) -> bool
    decreases t, fields, fields.len() - j,
{
    if j < 0 || j >= fields.len() {
        true
    } else {
        spec_compatible(t, fields[j].1) && compat_dict(t, fields, j + 1)
    }
}

/// Compatibility of every element with the shared template, from `i` on.
pub open spec fn compat_elems_all(t: NodeContainerV, vals: Seq<ValueV>, i: int) -> bool
    decreases t, vals, vals.len() - i,
{
    if i < 0 || i >= vals.len() {
        true
    } else {
        spec_compatible(t, vals[i]) && compat_elems_all(t, vals, i + 1)
    }
}

/// Position-wise compatibility with fixed templates, from `i` on.
pub open spec fn compat_elems_firstn(ts: Seq<NodeContainerV>, vals: Seq<ValueV>, i: int) -> bool
    decreases ts, vals, ts.len() - i,
{
    if i < 0 || i >= ts.len() || i >= vals.len() {
        true
    } else {
        spec_compatible(ts[i], vals[i]) && compat_elems_firstn(ts, vals, i + 1)
    }
}

/// A value restricted to a schema position: the keys and positions the
/// schema declares (or its template covers), in schema order, with struct
/// tags dropped and sequences normalized to the array's own shape.
pub open spec fn spec_restrict(c: NodeContainerV, v: ValueV) -> ValueV
    decreases c, v, 2int,
{
    match c.node {
        NodeV::Enum(ns, _) => {
            let pos = spec_match_index(ns, v, 0);
            if 0 <= pos < ns.len() {
                spec_restrict(ns[pos], v)
            } else {
                v
            }
        },
        NodeV::Array(tpl, _) => match tpl {
            TemplateV::All(t) => match v {
                ValueV::List(vs) => ValueV::List(restrict_elems_all(*t, vs, 0)),
                _ => v,
            },
            TemplateV::FirstN(ts) => match v {
                ValueV::Tuple(vs) => ValueV::Tuple(restrict_elems_firstn(ts, vs, 0)),
                _ => v,
            },
        },
        NodeV::Object(entries, tpl) => match tpl {
            None => match v {
                ValueV::Struct(_, fields) => ValueV::Struct(
                    None,
                    restrict_fields(entries, fields, 0),
                ),
                _ => v,
            },
            Some(t) => match v {
                ValueV::Dict(pairs) => ValueV::Dict(
                    restrict_dict(*t, spec_dict_fields(pairs), 0),
                ),
                _ => v,
            },
        },
        _ => v,
    }
}

/// The declared fields of the restriction, in schema order.
pub open spec fn restrict_fields(
    entries: Seq<(Seq<char>, NodeContainerV)>,
    fields: Seq<(Seq<char>, ValueV)>,
    i: int,
) -> Seq<(Seq<char>, ValueV)>
    decreases entries, fields, entries.len() - i,
{
    if i < 0 || i >= entries.len() {
        Seq::empty()
    } else if entries[i].1.removable {
        restrict_fields(entries, fields, i + 1)
    } else {
        match field_lookup(fields, entries[i].0) {
            Some(val) => seq![(entries[i].0, spec_restrict(entries[i].1, val))]
                + restrict_fields(entries, fields, i + 1),
            None => restrict_fields(entries, fields, i + 1),
        }
    }
}

/// The template-covered entries of the restriction, in incoming order.
pub open spec fn restrict_dict(
    t: NodeContainerV,
    fields: Seq<(Seq<char>, ValueV)>,
    j: int,
) -> Seq<(ValueV, ValueV)>
    decreases t, fields, fields.len() - j,
{
    if j < 0 || j >= fields.len() {
        Seq::empty()
    } else {
        seq![(ValueV::String(fields[j].0), spec_restrict(t, fields[j].1))] + restrict_dict(
            t,
            fields,
            j + 1,
        )
    }
}

/// The restricted elements of a homogeneous array, from `i` on.
pub open spec fn restrict_elems_all(t: NodeContainerV, vals: Seq<ValueV>, i: int) -> Seq<ValueV>
    decreases t, vals, vals.len() - i,
{
    if i < 0 || i >= vals.len() {
        Seq::empty()
    } else {
        seq![spec_restrict(t, vals[i])] + restrict_elems_all(t, vals, i + 1)
    }
}

/// The restricted elements of a fixed array, from `i` on.
pub open spec fn restrict_elems_firstn(
    ts: Seq<NodeContainerV>,
    vals: Seq<ValueV>,
    i: int,
) -> Seq<ValueV>
    decreases ts, vals, ts.len() - i,
{
    if i < 0 || i >= vals.len() || i >= ts.len() {
        Seq::empty()
    } else {
        seq![spec_restrict(ts[i], vals[i])] + restrict_elems_firstn(ts, vals, i + 1)
    }
}

/// Reconciliation sets the container's `modified` flag to exactly the flag
/// it was given.
pub proof fn lemma_apply_modified(c: NodeContainerV, v: ValueV, m: bool)
    ensures
        spec_apply(c, v, m).0.modified == m,
{
}

/// Applying a value unmodified leaves nothing to emit: the result of a
/// defaults-only pass is suppressed by serialization.
pub proof fn lemma_default_suppression_subtree(c: NodeContainerV, v: ValueV)
    ensures
        spec_apply(c, v, false).0.modified == false,
        spec_to_value(spec_apply(c, v, false).0) is None,
{
}

/// Number widths survive the bind/project round trip.
pub proof fn lemma_number_roundtrip(n: Number)
    ensures
        spec_to_number(spec_from_number(n)) == n,
{
}

proof fn lemma_project_fields_shift(
    x: (Seq<char>, NodeContainerV),
    s: Seq<(Seq<char>, NodeContainerV)>,
    i: int,
)
    requires
        0 <= i <= s.len(),
    ensures
        spec_project_fields(seq![x] + s, i + 1) == spec_project_fields(s, i),
    decreases s.len() - i,
{
    let xs = seq![x] + s;
    assert(xs.len() == s.len() + 1);
    if i < s.len() {
        assert(xs[i + 1] == s[i]);
        lemma_project_fields_shift(x, s, i + 1);
    }
}

proof fn lemma_project_dict_shift(
    x: (Seq<char>, NodeContainerV),
    s: Seq<(Seq<char>, NodeContainerV)>,
    i: int,
)
    requires
        0 <= i <= s.len(),
    ensures
        spec_project_dict(seq![x] + s, i + 1) == spec_project_dict(s, i),
    decreases s.len() - i,
{
    let xs = seq![x] + s;
    assert(xs.len() == s.len() + 1);
    if i < s.len() {
        assert(xs[i + 1] == s[i]);
        lemma_project_dict_shift(x, s, i + 1);
    }
}

proof fn lemma_project_dict_push(
    s: Seq<(Seq<char>, NodeContainerV)>,
    x: (Seq<char>, NodeContainerV),
    i: int,
)
    requires
        0 <= i <= s.len(),
    ensures
        spec_project_dict(s.push(x), i) == spec_project_dict(s, i) + (match spec_to_value(x.1) {
            Some(v) => seq![(ValueV::String(x.0), v)],
            None => Seq::empty(),
        }),
    decreases s.len() - i,
{
    let sp = s.push(x);
    assert(sp.len() == s.len() + 1);
    if i < s.len() {
        assert(sp[i] == s[i]);
        lemma_project_dict_push(s, x, i + 1);
        match spec_to_value(s[i].1) {
            Some(v) => {
                assert(spec_project_dict(sp, i) =~= spec_project_dict(s, i) + (
                match spec_to_value(x.1) {
                    Some(xv) => seq![(ValueV::String(x.0), xv)],
                    None => Seq::empty(),
                }));
            },
            None => {},
        }
    } else {
        assert(sp[i] == x);
        assert(spec_project_dict(sp, i + 1) == Seq::<(ValueV, ValueV)>::empty());
        assert(spec_project_dict(s, i) == Seq::<(ValueV, ValueV)>::empty());
        match spec_to_value(x.1) {
            Some(v) => {
                assert(spec_project_dict(sp, i) =~= Seq::<(ValueV, ValueV)>::empty() + seq![
                    (ValueV::String(x.0), v),
                ]);
            },
            None => {
                assert(spec_project_dict(sp, i) =~= Seq::<(ValueV, ValueV)>::empty() + Seq::<
                    (ValueV, ValueV),
                >::empty());
            },
        }
    }
}

proof fn lemma_project_elems_shift(x: NodeContainerV, s: Seq<NodeContainerV>, i: int)
    requires
        0 <= i <= s.len(),
    ensures
        spec_project_elems(seq![x] + s, i + 1) == spec_project_elems(s, i),
    decreases s.len() - i,
{
    let xs = seq![x] + s;
    assert(xs.len() == s.len() + 1);
    if i < s.len() {
        assert(xs[i + 1] == s[i]);
        lemma_project_elems_shift(x, s, i + 1);
    }
}

proof fn lemma_entry_index_push(
    s: Seq<(Seq<char>, NodeContainerV)>,
    kv: (Seq<char>, NodeContainerV),
    k: Seq<char>,
)
    ensures
        entry_index(s, k) >= 0 ==> entry_index(s.push(kv), k) == entry_index(s, k),
        entry_index(s, k) == -1 && kv.0 == k ==> entry_index(s.push(kv), k) == s.len(),
        entry_index(s, k) == -1 && kv.0 != k ==> entry_index(s.push(kv), k) == -1,
    decreases s.len(),
{
    crate::apply::lemma_entry_index(s, k);
    let sp = s.push(kv);
    if s.len() == 0 {
        assert(sp[0] == kv);
        assert(sp.drop_first() =~= Seq::<(Seq<char>, NodeContainerV)>::empty());
        assert(entry_index(sp.drop_first(), k) == -1);
    } else {
        assert(sp[0] == s[0]);
        assert(sp.drop_first() =~= s.drop_first().push(kv));
        lemma_entry_index_push(s.drop_first(), kv, k);
        crate::apply::lemma_entry_index(s.drop_first(), k);
    }
}

proof fn lemma_all_removable_apply(
    entries: Seq<(Seq<char>, NodeContainerV)>,
    fields: Seq<(Seq<char>, ValueV)>,
    i: int,
)
    requires
        all_removable(entries),
        0 <= i <= entries.len(),
    ensures
        spec_apply_fields(entries, fields, i) == (
            Seq::<(Seq<char>, NodeContainerV)>::empty(),
            None::<crate::apply::ReconciliationError>,
        ),
    decreases entries.len() - i,
{
    if i < entries.len() {
        lemma_all_removable_apply(entries, fields, i + 1);
    }
}

/// The reconciler preserves the declared fields it applies: applying a
/// compatible struct succeeds, and the processed entries project exactly the
/// restriction of the incoming fields, in schema order.
proof fn lemma_rt_fields(
    entries: Seq<(Seq<char>, NodeContainerV)>,
    fields: Seq<(Seq<char>, ValueV)>,
    i: int,
)
    requires
        0 <= i <= entries.len(),
        compat_fields(entries, fields, i),
    ensures
        spec_apply_fields(entries, fields, i).1 is None,
        spec_project_fields(spec_apply_fields(entries, fields, i).0, 0) == restrict_fields(
            entries,
            fields,
            i,
        ),
    decreases entries, fields, entries.len() - i,
{
    if i >= entries.len() {
    } else if entries[i].1.removable {
        lemma_rt_fields(entries, fields, i + 1);
    } else {
        match field_lookup(fields, entries[i].0) {
            Some(val) => {
                assert(decreases_to!(entries => entries[i].1));
                lemma_round_trip(entries[i].1, val);
                let c2 = spec_apply(entries[i].1, val, true).0;
                lemma_rt_fields(entries, fields, i + 1);
                let rest = spec_apply_fields(entries, fields, i + 1).0;
                lemma_project_fields_shift((entries[i].0, c2), rest, 0);
                assert(spec_project_fields(seq![(entries[i].0, c2)] + rest, 0) == seq![
                    (entries[i].0, spec_restrict(entries[i].1, val)),
                ] + spec_project_fields(rest, 0));
            },
            None => {
                let c2 = match entries[i].1.default {
                    Some(d) => spec_apply(entries[i].1, d, false).0,
                    None => entries[i].1,
                };
                match entries[i].1.default {
                    Some(d) => {
                        lemma_default_suppression_subtree(entries[i].1, d);
                    },
                    None => {},
                }
                assert(spec_to_value(c2) is None);
                lemma_rt_fields(entries, fields, i + 1);
                let rest = spec_apply_fields(entries, fields, i + 1).0;
                lemma_project_fields_shift((entries[i].0, c2), rest, 0);
            },
        }
    }
}

/// Template expansion over a compatible map succeeds and projects, after the
/// already-present entries, exactly the restriction of the incoming entries
/// in incoming order.
proof fn lemma_rt_extras(
    t: NodeContainerV,
    acc: Seq<(Seq<char>, NodeContainerV)>,
    fields: Seq<(Seq<char>, ValueV)>,
    j: int,
)
    requires
        0 <= j <= fields.len(),
        compat_dict(t, fields, j),
        distinct_field_keys(fields),
        forall|jj: int| j <= jj < fields.len() ==> entry_index(acc, fields[jj].0) == -1,
    ensures
        spec_apply_extras(t, acc, fields, j).1 is None,
        spec_project_dict(spec_apply_extras(t, acc, fields, j).0, 0) == spec_project_dict(
            acc,
            0,
        ) + restrict_dict(t, fields, j),
    decreases t, fields, fields.len() - j,
{
    if j >= fields.len() {
        assert(spec_project_dict(acc, 0) + restrict_dict(t, fields, j) =~= spec_project_dict(
            acc,
            0,
        ));
    } else {
        assert(decreases_to!(fields => fields[j].1));
        lemma_round_trip(t, fields[j].1);
        let t2 = spec_apply(t, fields[j].1, true).0;
        let inst = NodeContainerV { removable: true, ..t2 };
        assert(spec_to_value(inst) == spec_to_value(t2));
        crate::apply::lemma_entry_index(acc, fields[j].0);
        assert(entry_index(acc, fields[j].0) == -1);
        let acc2 = acc.push((fields[j].0, inst));
        assert(entry_upsert(acc, fields[j].0, inst) == acc2);
        assert forall|jj: int| j + 1 <= jj < fields.len() implies entry_index(
            acc2,
            fields[jj].0,
        ) == -1 by {
            lemma_entry_index_push(acc, (fields[j].0, inst), fields[jj].0);
            assert(fields[j].0 != fields[jj].0);
        }
        lemma_rt_extras(t, acc2, fields, j + 1);
        lemma_project_dict_push(acc, (fields[j].0, inst), 0);
        assert(spec_project_dict(acc2, 0) == spec_project_dict(acc, 0) + seq![
            (ValueV::String(fields[j].0), spec_restrict(t, fields[j].1)),
        ]);
        assert(spec_project_dict(acc, 0) + restrict_dict(t, fields, j) =~= (spec_project_dict(
            acc,
            0,
        ) + seq![(ValueV::String(fields[j].0), spec_restrict(t, fields[j].1))]) + restrict_dict(
            t,
            fields,
            j + 1,
        ));
    }
}

/// Element reconciliation over a compatible sequence succeeds, and the fresh
/// elements project exactly the element-wise restriction.
proof fn lemma_rt_elems(tpl: TemplateV, vals: Seq<ValueV>, i: int)
    requires
        0 <= i <= vals.len(),
        match tpl {
            TemplateV::All(t) => compat_elems_all(*t, vals, i),
            TemplateV::FirstN(ts) => ts.len() == vals.len() && compat_elems_firstn(ts, vals, i),
        },
    ensures
        spec_apply_elems(tpl, vals, true, i).1 is None,
        spec_project_elems(spec_apply_elems(tpl, vals, true, i).0, 0) == Some(
            match tpl {
                TemplateV::All(t) => restrict_elems_all(*t, vals, i),
                TemplateV::FirstN(ts) => restrict_elems_firstn(ts, vals, i),
            },
        ),
    decreases tpl, vals, vals.len() - i,
{
    if i >= vals.len() {
    } else {
        match tpl {
            TemplateV::All(t) => {
                assert(decreases_to!(tpl => tpl->All_0));
                lemma_round_trip(*t, vals[i]);
                let c2 = spec_apply(*t, vals[i], true).0;
                lemma_rt_elems(tpl, vals, i + 1);
                let rest = spec_apply_elems(tpl, vals, true, i + 1).0;
                lemma_project_elems_shift(c2, rest, 0);
            },
            TemplateV::FirstN(ts) => {
                assert(decreases_to!(tpl => tpl->FirstN_0));
                assert(decreases_to!(tpl->FirstN_0 => ts[i]));
                lemma_round_trip(ts[i], vals[i]);
                let c2 = spec_apply(ts[i], vals[i], true).0;
                lemma_rt_elems(tpl, vals, i + 1);
                let rest = spec_apply_elems(tpl, vals, true, i + 1).0;
                lemma_project_elems_shift(c2, rest, 0);
            },
        }
    }
}

/// Round trip: reconciling a compatible value into a tree succeeds, and
/// serializing the result returns that value restricted to the schema's
/// declared keys and positions, in schema order.
pub proof fn lemma_round_trip(c: NodeContainerV, v: ValueV)
    requires
        spec_compatible(c, v),
    ensures
        spec_apply(c, v, true).1 is None,
        spec_to_value(spec_apply(c, v, true).0) == Some(spec_restrict(c, v)),
    decreases c, v, 3int,
{
    match c.node {
        NodeV::Null => {},
        NodeV::Bool(_) => {},
        NodeV::String(_) => {},
        NodeV::Number(_, _, _) => {
            lemma_number_roundtrip(v->Number_0);
        },
        NodeV::Value(_) => {},
        NodeV::Any => {},
        NodeV::Enum(ns, _) => {
            let pos = spec_match_index(ns, v, 0);
            assert(decreases_to!(c => c.node));
            assert(decreases_to!(c.node => c.node->Enum_0));
            assert(decreases_to!(c.node->Enum_0 => ns[pos]));
            lemma_round_trip(ns[pos], v);
            assert(ns.update(pos, spec_apply(ns[pos], v, true).0)[pos] == spec_apply(
                ns[pos],
                v,
                true,
            ).0);
        },
        NodeV::Array(tpl, _) => {
            assert(decreases_to!(c => c.node));
            assert(decreases_to!(c.node => c.node->Array_0));
            lemma_rt_elems(tpl, spec_seq_elems(v)->0, 0);
        },
        NodeV::Object(entries, tpl) => {
            assert(decreases_to!(c => c.node));
            assert(decreases_to!(c.node => c.node->Object_0));
            match tpl {
                None => {
                    let fields = v->Struct_1;
                    lemma_rt_fields(entries, fields, 0);
                    lemma_restrict_fields_present(entries, fields, 0);
                },
                Some(t) => {
                    let pairs = v->Dict_0;
                    let fields = spec_dict_fields(pairs);
                    lemma_all_removable_apply(entries, fields, 0);
                    assert(decreases_to!(c.node => c.node->Object_1));
                    assert(decreases_to!(c.node->Object_1 => c.node->Object_1->0));
                    assert forall|jj: int| 0 <= jj < fields.len() implies entry_index(
                        Seq::<(Seq<char>, NodeContainerV)>::empty(),
                        fields[jj].0,
                    ) == -1 by {}
                    lemma_rt_extras(*t, Seq::empty(), fields, 0);
                    assert(spec_project_dict(Seq::<(Seq<char>, NodeContainerV)>::empty(), 0)
                        =~= Seq::<(ValueV, ValueV)>::empty());
                    assert(Seq::<(ValueV, ValueV)>::empty() + restrict_dict(*t, fields, 0)
                        =~= restrict_dict(*t, fields, 0));
                    lemma_restrict_dict_len(*t, fields, 0);
                },
            }
        },
    }
}

/// A successful element pass builds exactly one container per element.
proof fn lemma_apply_elems_len(tpl: TemplateV, vals: Seq<ValueV>, m: bool, i: int)
    requires
        0 <= i <= vals.len(),
        spec_apply_elems(tpl, vals, m, i).1 is None,
    ensures
        spec_apply_elems(tpl, vals, m, i).0.len() == vals.len() - i,
    decreases vals.len() - i,
{
    if i < vals.len() {
        lemma_apply_elems_len(tpl, vals, m, i + 1);
    }
}

/// Array rebuild: a successful reconciliation of a sequence-shaped value
/// replaces an array's element list wholesale — the result holds exactly one
/// fresh template instance per incoming element, and nothing from any prior
/// pass survives.
pub proof fn lemma_array_rebuild(c: NodeContainerV, v: ValueV, m: bool)
    requires
        c.node is Array,
        spec_seq_elems(v) is Some,
        spec_apply(c, v, m).1 is None,
    ensures
        spec_apply(c, v, m).0.node == NodeV::Array(
            c.node->Array_0,
            Some(spec_apply_elems(c.node->Array_0, spec_seq_elems(v)->0, m, 0).0),
        ),
        spec_apply(c, v, m).0.node->Array_1->0.len() == spec_seq_elems(v)->0.len(),
{
    lemma_apply_elems_len(c.node->Array_0, spec_seq_elems(v)->0, m, 0);
}

/// Default suppression: a defaults-only pass (`Empty`, every field seeded
/// unmodified) leaves every declared field with nothing to emit, so the tree
/// serializes to nothing at all.
pub proof fn lemma_default_suppression(c: NodeContainerV)
    requires
        c.node is Object,
        c.node->Object_1 is None,
        compat_fields(c.node->Object_0, Seq::empty(), 0),
    ensures
        spec_apply(c, ValueV::Empty, true).1 is None,
        spec_to_value(spec_apply(c, ValueV::Empty, true).0) is None,
{
    let entries = c.node->Object_0;
    lemma_empty_fields_apply(entries, 0);
}

/// The restriction of a struct is non-empty exactly when some declared field
/// is supplied.
proof fn lemma_restrict_fields_present(
    entries: Seq<(Seq<char>, NodeContainerV)>,
    fields: Seq<(Seq<char>, ValueV)>,
    i: int,
)
    requires
        0 <= i <= entries.len(),
    ensures
        restrict_fields(entries, fields, i).len() > 0 <==> has_present_field(entries, fields, i),
    decreases entries.len() - i,
{
    if i < entries.len() {
        lemma_restrict_fields_present(entries, fields, i + 1);
    }
}

/// The restriction of a map has one entry per incoming entry.
proof fn lemma_restrict_dict_len(t: NodeContainerV, fields: Seq<(Seq<char>, ValueV)>, j: int)
    requires
        0 <= j <= fields.len(),
    ensures
        restrict_dict(t, fields, j).len() == fields.len() - j,
    decreases fields.len() - j,
{
    if j < fields.len() {
        lemma_restrict_dict_len(t, fields, j + 1);
    }
}

proof fn lemma_empty_fields_apply(entries: Seq<(Seq<char>, NodeContainerV)>, i: int)
    requires
        0 <= i <= entries.len(),
        compat_fields(entries, Seq::empty(), i),
    ensures
        spec_apply_fields(entries, Seq::empty(), i).1 is None,
        spec_project_fields(spec_apply_fields(entries, Seq::empty(), i).0, 0) == Seq::<
            (Seq<char>, ValueV),
        >::empty(),
    decreases entries.len() - i,
{
    if i < entries.len() {
        crate::merge::lemma_field_index(Seq::empty(), entries[i].0);
        if entries[i].1.removable {
            lemma_empty_fields_apply(entries, i + 1);
        } else {
            let c2 = match entries[i].1.default {
                Some(d) => spec_apply(entries[i].1, d, false).0,
                None => entries[i].1,
            };
            match entries[i].1.default {
                Some(d) => {
                    lemma_default_suppression_subtree(entries[i].1, d);
                },
                None => {},
            }
            assert(spec_to_value(c2) is None);
            lemma_empty_fields_apply(entries, i + 1);
            let rest = spec_apply_fields(entries, Seq::empty(), i + 1).0;
            lemma_project_fields_shift((entries[i].0, c2), rest, 0);
        }
    }
}

/// The positions at which a second pass of the same value provably leaves
/// the tree unchanged: scalar and literal positions with any value, arrays
/// whose elements are such positions, and objects without a homogeneous
/// template whose declared fields are such positions (for the incoming
/// value, its default, or untouched). Enum selection and template expansion
/// are excluded: re-selection depends on the data instantiated by the first
/// pass.
pub open spec fn spec_idem_ok(c: NodeContainerV, v: ValueV) -> bool
    decreases c, v, 2int,
{
    match c.node {
        NodeV::Null => true,
        NodeV::Bool(_) => true,
        NodeV::String(_) => true,
        NodeV::Number(_, _, _) => true,
        NodeV::Value(_) => true,
        NodeV::Any => true,
        NodeV::Enum(_, _) => false,
        // arrays rebuild deterministically from their unchanged template
        NodeV::Array(_, _) => true,
        NodeV::Object(entries, tpl) => {
            tpl is None && match v {
                ValueV::Struct(_, fields) => idem_fields(entries, fields, 0),
                ValueV::Dict(pairs) => idem_fields(entries, spec_dict_fields(pairs), 0),
                ValueV::Empty => idem_fields(entries, Seq::empty(), 0),
                _ => true,
            }
        },
    }
}

/// Idempotence-readiness of the declared fields from `i` on.
pub open spec fn idem_fields(
    entries: Seq<(Seq<char>, NodeContainerV)>,
    fields: Seq<(Seq<char>, ValueV)>,
    i: int,
) -> bool
    decreases entries, fields, entries.len() - i,
{
    if i < 0 || i >= entries.len() {
        true
    } else if entries[i].1.removable {
        idem_fields(entries, fields, i + 1)
    } else {
        let this_ok = match field_lookup(fields, entries[i].0) {
            Some(val) => spec_idem_ok(entries[i].1, val),
            None => match entries[i].1.default {
                Some(d) => spec_idem_ok(entries[i].1, d),
                None => true,
            },
        };
        this_ok && idem_fields(entries, fields, i + 1)
    }
}

proof fn lemma_apply_fields_shift(
    x: (Seq<char>, NodeContainerV),
    s: Seq<(Seq<char>, NodeContainerV)>,
    fields: Seq<(Seq<char>, ValueV)>,
    i: int,
)
    requires
        0 <= i <= s.len(),
    ensures
        spec_apply_fields(seq![x] + s, fields, i + 1) == spec_apply_fields(s, fields, i),
    decreases s.len() - i,
{
    let xs = seq![x] + s;
    assert(xs.len() == s.len() + 1);
    if i < s.len() {
        assert(xs[i + 1] == s[i]);
        lemma_apply_fields_shift(x, s, fields, i + 1);
        assert(xs.subrange(i + 2, xs.len() as int) =~= s.subrange(i + 1, s.len() as int));
    }
}

/// A second reconciliation of the same struct fields over the output of a
/// successful first pass reproduces that output exactly.
proof fn lemma_idem_fields(
    entries: Seq<(Seq<char>, NodeContainerV)>,
    fields: Seq<(Seq<char>, ValueV)>,
    i: int,
)
    requires
        0 <= i <= entries.len(),
        idem_fields(entries, fields, i),
        spec_apply_fields(entries, fields, i).1 is None,
    ensures
        spec_apply_fields(spec_apply_fields(entries, fields, i).0, fields, 0) == (
            spec_apply_fields(entries, fields, i).0,
            None::<crate::apply::ReconciliationError>,
        ),
    decreases entries, fields, entries.len() - i,
{
    if i >= entries.len() {
    } else if entries[i].1.removable {
        lemma_idem_fields(entries, fields, i + 1);
    } else {
        let (c2, e) = match field_lookup(fields, entries[i].0) {
            Some(val) => spec_apply(entries[i].1, val, true),
            None => match entries[i].1.default {
                Some(d) => spec_apply(entries[i].1, d, false),
                None => (entries[i].1, None),
            },
        };
        let rest = spec_apply_fields(entries, fields, i + 1).0;
        let whole = seq![(entries[i].0, c2)] + rest;
        assert(whole[0] == (entries[i].0, c2));
        assert(c2.removable == entries[i].1.removable);
        lemma_idem_fields(entries, fields, i + 1);
        // the head is reapplied to itself
        match field_lookup(fields, entries[i].0) {
            Some(val) => {
                assert(decreases_to!(entries => entries[i].1));
                lemma_apply_idempotent(entries[i].1, val, true);
            },
            None => {
                match entries[i].1.default {
                    Some(d) => {
                        assert(decreases_to!(entries => entries[i].1));
                        lemma_apply_idempotent(entries[i].1, d, false);
                    },
                    None => {},
                }
            },
        }
        lemma_apply_fields_shift((entries[i].0, c2), rest, fields, 0);
        assert(spec_apply_fields(whole, fields, 0).0 =~= seq![(entries[i].0, c2)]
            + spec_apply_fields(rest, fields, 0).0);
    }
}

/// Idempotence: on positions free of enum selection and template expansion,
/// reapplying the same value to the tree a successful pass produced leaves
/// the tree, and hence its serialization, exactly as that pass left it.
pub proof fn lemma_apply_idempotent(c: NodeContainerV, v: ValueV, m: bool)
    requires
        spec_idem_ok(c, v),
        spec_apply(c, v, m).1 is None,
    ensures
        spec_apply(spec_apply(c, v, m).0, v, m) == (spec_apply(c, v, m).0, None::<
            crate::apply::ReconciliationError,
        >),
    decreases c, v, 3int,
{
    match c.node {
        NodeV::Null => {},
        NodeV::Bool(_) => {},
        NodeV::String(_) => {},
        NodeV::Number(_, _, _) => {},
        NodeV::Value(_) => {},
        NodeV::Any => {},
        NodeV::Enum(_, _) => {},
        NodeV::Object(entries, tpl) => {
            assert(decreases_to!(c => c.node));
            assert(decreases_to!(c.node => c.node->Object_0));
            match v {
                ValueV::Struct(_, fields) => {
                    lemma_idem_fields(entries, fields, 0);
                },
                ValueV::Dict(pairs) => {
                    lemma_idem_fields(entries, spec_dict_fields(pairs), 0);
                },
                ValueV::Empty => {
                    lemma_idem_fields(entries, Seq::empty(), 0);
                },
                _ => {
                    lemma_evict_idempotent(entries);
                },
            }
        },
        NodeV::Array(_, _) => {
            // the second pass repeats the same deterministic rebuild from
            // the template the first pass carried over unchanged
        
        },
    }
}

/// Evicting template-instantiated entries is idempotent: the survivors carry
/// their flags unchanged.
proof fn lemma_evict_idempotent(s: Seq<(Seq<char>, NodeContainerV)>)
    ensures
        crate::apply::spec_evict(crate::apply::spec_evict(s)) == crate::apply::spec_evict(s),
    decreases s,
{
    if s.len() > 0 {
        lemma_evict_idempotent(s.drop_last());
        let r = crate::apply::spec_evict(s.drop_last());
        if !s.last().1.removable {
            assert(crate::apply::spec_evict(r.push(s.last())) =~= crate::apply::spec_evict(r).push(
                s.last(),
            )) by {
                lemma_evict_push_keep(r, s.last());
            }
        }
    }
}

proof fn lemma_evict_push_keep(
    s: Seq<(Seq<char>, NodeContainerV)>,
    x: (Seq<char>, NodeContainerV),
)
    requires
        !x.1.removable,
    ensures
        crate::apply::spec_evict(s.push(x)) == crate::apply::spec_evict(s).push(x),
{
    assert(s.push(x).drop_last() =~= s);
    assert(s.push(x).last() == x);
}


} // verus!
