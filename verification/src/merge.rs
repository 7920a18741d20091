//! Merging two generic values, giving priority to the right side on
//! conflicts. `Empty` is the two-sided identity; maps and structs merge
//! key-wise; sequences merge index-wise; anything else is replaced by the
//! right side.

use vstd::prelude::*;

use crate::eq::{pairs_dup, value_dup, value_eq};
use crate::value::{fields_view, pairs_view, views_of, FieldMap, Value, ValueMap, ValueV};
use vstd::std_specs::vec::vec_index_mut;

verus! {

broadcast use crate::value::group_value_views;

/// Index of the first entry of `s` whose key is `k`, or `-1` when absent.
pub open spec fn key_index(s: Seq<(ValueV, ValueV)>, k: ValueV) -> int
    decreases s.len(),
{
    if s.len() == 0 {
        -1
    } else if s[0].0 == k {
        0
    } else {
        let r = key_index(s.drop_first(), k);
        if r == -1 {
            -1
        } else {
            r + 1
        }
    }
}

/// Index of the first field of `s` named `k`, or `-1` when absent.
pub open spec fn field_index(s: Seq<(Seq<char>, ValueV)>, k: Seq<char>) -> int
    decreases s.len(),
{
    if s.len() == 0 {
        -1
    } else if s[0].0 == k {
        0
    } else {
        let r = field_index(s.drop_first(), k);
        if r == -1 {
            -1
        } else {
            r + 1
        }
    }
}

/// The value bound to field `k` of `s`, if any.
pub open spec fn field_lookup(s: Seq<(Seq<char>, ValueV)>, k: Seq<char>) -> Option<ValueV> {
    let i = field_index(s, k);
    if i == -1 {
        None
    } else {
        Some(s[i].1)
    }
}

pub broadcast proof fn lemma_key_index(s: Seq<(ValueV, ValueV)>, k: ValueV)
    ensures
        -1 <= #[trigger] key_index(s, k) < s.len(),
        key_index(s, k) >= 0 ==> s[key_index(s, k)].0 == k,
        key_index(s, k) >= 0 ==> forall|j: int| 0 <= j < key_index(s, k) ==> s[j].0 != k,
        key_index(s, k) == -1 ==> forall|j: int| 0 <= j < s.len() ==> s[j].0 != k,
    decreases s.len(),
{
    if s.len() > 0 && s[0].0 != k {
        let t = s.drop_first();
        lemma_key_index(t, k);
        assert forall|j: int| 1 <= j < s.len() implies s[j] == t[j - 1] by {}
    }
}

pub broadcast proof fn lemma_field_index(s: Seq<(Seq<char>, ValueV)>, k: Seq<char>)
    ensures
        -1 <= #[trigger] field_index(s, k) < s.len(),
        field_index(s, k) >= 0 ==> s[field_index(s, k)].0 == k,
        field_index(s, k) >= 0 ==> forall|j: int| 0 <= j < field_index(s, k) ==> s[j].0 != k,
        field_index(s, k) == -1 ==> forall|j: int| 0 <= j < s.len() ==> s[j].0 != k,
    decreases s.len(),
{
    if s.len() > 0 && s[0].0 != k {
        let t = s.drop_first();
        lemma_field_index(t, k);
        assert forall|j: int| 1 <= j < s.len() implies s[j] == t[j - 1] by {}
    }
}

/// Index-wise merge of two sequences, up to the longer length.
pub open spec fn elems_merge(s1: Seq<ValueV>, s2: Seq<ValueV>) -> Seq<ValueV>
    decreases s2, s1,
{
    if s2.len() == 0 {
        s1
    } else if s1.len() == 0 {
        s2
    } else {
        seq![spec_merge(s1[0], s2[0])] + elems_merge(s1.drop_first(), s2.drop_first())
    }
}

/// One key-wise merge step: merge `kv` into `s1`, combining with an existing
/// entry of the same key in place, else appending.
pub open spec fn dict_insert_merge(s1: Seq<(ValueV, ValueV)>, kv: (ValueV, ValueV)) -> Seq<
    (ValueV, ValueV),
>
    decreases kv,
{
    let i = key_index(s1, kv.0);
    if i >= 0 {
        s1.update(i, (s1[i].0, spec_merge(s1[i].1, kv.1)))
    } else {
        s1.push(kv)
    }
}

/// Key-wise merge of value-keyed entries: each entry of `s2` is merged into
/// `s1` in order.
pub open spec fn dict_merge(s1: Seq<(ValueV, ValueV)>, s2: Seq<(ValueV, ValueV)>) -> Seq<
    (ValueV, ValueV),
>
    decreases s2,
{
    if s2.len() == 0 {
        s1
    } else {
        dict_merge(dict_insert_merge(s1, s2[0]), s2.drop_first())
    }
}

/// One field-wise merge step for string-keyed entries.
pub open spec fn struct_insert_merge(
    s1: Seq<(Seq<char>, ValueV)>,
    kv: (Seq<char>, ValueV),
) -> Seq<(Seq<char>, ValueV)>
    decreases kv,
{
    let i = field_index(s1, kv.0);
    if i >= 0 {
        s1.update(i, (s1[i].0, spec_merge(s1[i].1, kv.1)))
    } else {
        s1.push(kv)
    }
}

/// Field-wise merge of string-keyed entries.
pub open spec fn struct_merge(
    s1: Seq<(Seq<char>, ValueV)>,
    s2: Seq<(Seq<char>, ValueV)>,
) -> Seq<(Seq<char>, ValueV)>
    decreases s2,
{
    if s2.len() == 0 {
        s1
    } else {
        struct_merge(struct_insert_merge(s1, s2[0]), s2.drop_first())
    }
}

/// Merge of two values: `b` wins on conflicts, `Empty` is neutral, options,
/// maps, structs and sequences merge recursively.
pub open spec fn spec_merge(a: ValueV, b: ValueV) -> ValueV
    decreases b,
{
    if b is Empty {
        a
    } else if a is Empty {
        b
    } else {
        match (a, b) {
            (ValueV::Option(x), ValueV::Option(y)) => ValueV::Option(
                match (x, y) {
                    (x, None) => x,
                    (None, Some(bv)) => Some(bv),
                    (Some(av), Some(bv)) => Some(Box::new(spec_merge(*av, *bv))),
                },
            ),
            (ValueV::Dict(m1), ValueV::Dict(m2)) => ValueV::Dict(dict_merge(m1, m2)),
            (ValueV::Struct(id1, m1), ValueV::Struct(id2, m2)) => ValueV::Struct(
                if id2 is Some {
                    id2
                } else {
                    id1
                },
                struct_merge(m1, m2),
            ),
            (ValueV::List(l1), ValueV::List(l2)) => ValueV::List(elems_merge(l1, l2)),
            (ValueV::Tuple(t1), ValueV::Tuple(t2)) => ValueV::Tuple(elems_merge(t1, t2)),
            (ValueV::NamedTuple(n1, t1), ValueV::NamedTuple(n2, t2)) => if n1 == n2 {
                ValueV::NamedTuple(n1, elems_merge(t1, t2))
            } else {
                b
            },
            (_, _) => b,
        }
    }
}

/// The length and the elements of an index-wise merge.
pub broadcast proof fn lemma_elems_merge(s1: Seq<ValueV>, s2: Seq<ValueV>)
    ensures
        (#[trigger] elems_merge(s1, s2)).len() == if s1.len() >= s2.len() {
            s1.len()
        } else {
            s2.len()
        },
        forall|i: int|
            0 <= i < elems_merge(s1, s2).len() ==> elems_merge(s1, s2)[i] == if i < s1.len() && i
                < s2.len() {
                spec_merge(s1[i], s2[i])
            } else if i < s1.len() {
                s1[i]
            } else {
                s2[i]
            },
    decreases s2, s1,
{
    if s2.len() > 0 && s1.len() > 0 {
        let t1 = s1.drop_first();
        let t2 = s2.drop_first();
        lemma_elems_merge(t1, t2);
        assert forall|j: int| 1 <= j < s1.len() implies s1[j] == t1[j - 1] by {}
        assert forall|j: int| 1 <= j < s2.len() implies s2[j] == t2[j - 1] by {}
        assert forall|j: int|
            1 <= j < elems_merge(s1, s2).len() implies elems_merge(s1, s2)[j] == elems_merge(
            t1,
            t2,
        )[j - 1] by {}
    }
}

/// Unrolling a key-wise merge from the right.
pub proof fn lemma_dict_merge_push(
    s1: Seq<(ValueV, ValueV)>,
    s2: Seq<(ValueV, ValueV)>,
    kv: (ValueV, ValueV),
)
    ensures
        dict_merge(s1, s2.push(kv)) == dict_insert_merge(dict_merge(s1, s2), kv),
    decreases s2.len(),
{
    let se = s2.push(kv);
    if s2.len() == 0 {
        assert(se[0] == kv);
        assert(se.drop_first() =~= s2);
        assert(dict_merge(s1, se) == dict_merge(dict_insert_merge(s1, kv), s2));
        assert(dict_merge(dict_insert_merge(s1, kv), s2) == dict_insert_merge(s1, kv));
        assert(dict_merge(s1, s2) == s1);
    } else {
        assert(se[0] == s2[0]);
        assert(se.drop_first() =~= s2.drop_first().push(kv));
        assert(dict_merge(s1, se) == dict_merge(
            dict_insert_merge(s1, s2[0]),
            s2.drop_first().push(kv),
        ));
        lemma_dict_merge_push(dict_insert_merge(s1, s2[0]), s2.drop_first(), kv);
        assert(dict_merge(s1, s2) == dict_merge(dict_insert_merge(s1, s2[0]), s2.drop_first()));
    }
}

/// Unrolling a field-wise merge from the right.
pub proof fn lemma_struct_merge_push(
    s1: Seq<(Seq<char>, ValueV)>,
    s2: Seq<(Seq<char>, ValueV)>,
    kv: (Seq<char>, ValueV),
)
    ensures
        struct_merge(s1, s2.push(kv)) == struct_insert_merge(struct_merge(s1, s2), kv),
    decreases s2.len(),
{
    let se = s2.push(kv);
    if s2.len() == 0 {
        assert(se[0] == kv);
        assert(se.drop_first() =~= s2);
        assert(struct_merge(s1, se) == struct_merge(struct_insert_merge(s1, kv), s2));
        assert(struct_merge(struct_insert_merge(s1, kv), s2) == struct_insert_merge(s1, kv));
        assert(struct_merge(s1, s2) == s1);
    } else {
        assert(se[0] == s2[0]);
        assert(se.drop_first() =~= s2.drop_first().push(kv));
        assert(struct_merge(s1, se) == struct_merge(
            struct_insert_merge(s1, s2[0]),
            s2.drop_first().push(kv),
        ));
        lemma_struct_merge_push(struct_insert_merge(s1, s2[0]), s2.drop_first(), kv);
        assert(struct_merge(s1, s2) == struct_merge(
            struct_insert_merge(s1, s2[0]),
            s2.drop_first(),
        ));
    }
}

/// Finds the first entry of `m` whose key equals `k`.
fn dict_find(m: &ValueMap, k: &Value) -> (r: Option<usize>)
    ensures
        r is Some <==> key_index(m@, k@) >= 0,
        r is Some ==> r->0 == key_index(m@, k@) && r->0 < m.0.len(),
{
    proof {
        lemma_key_index(m@, k@);
    }
    let mut i: usize = 0;
    while i < m.0.len()
        invariant
            0 <= i <= m.0.len(),
            forall|j: int| 0 <= j < i ==> m@[j].0 != k@,
            key_index(m@, k@) >= 0 ==> key_index(m@, k@) >= i,
            -1 <= key_index(m@, k@) < m@.len(),
            key_index(m@, k@) >= 0 ==> m@[key_index(m@, k@)].0 == k@,
            key_index(m@, k@) >= 0 ==> forall|j: int|
                0 <= j < key_index(m@, k@) ==> m@[j].0 != k@,
            key_index(m@, k@) == -1 ==> forall|j: int| 0 <= j < m@.len() ==> m@[j].0 != k@,
        decreases m.0.len() - i,
    {
        if value_eq(&m.0[i].0, k) {
            proof {
                assert(m@[i as int].0 == k@);
            }
            return Some(i);
        }
        proof {
            assert(m@[i as int].0 != k@);
        }
        i += 1;
    }
    None
}

/// Finds the first field of `m` named `k`.
pub(crate) fn field_find(m: &FieldMap, k: &String) -> (r: Option<usize>)
    ensures
        r is Some <==> field_index(m@, k@) >= 0,
        r is Some ==> r->0 == field_index(m@, k@) && r->0 < m.0.len(),
{
    proof {
        lemma_field_index(m@, k@);
    }
    let mut i: usize = 0;
    while i < m.0.len()
        invariant
            0 <= i <= m.0.len(),
            forall|j: int| 0 <= j < i ==> m@[j].0 != k@,
            field_index(m@, k@) >= 0 ==> field_index(m@, k@) >= i,
            -1 <= field_index(m@, k@) < m@.len(),
            field_index(m@, k@) >= 0 ==> m@[field_index(m@, k@)].0 == k@,
            field_index(m@, k@) >= 0 ==> forall|j: int|
                0 <= j < field_index(m@, k@) ==> m@[j].0 != k@,
            field_index(m@, k@) == -1 ==> forall|j: int| 0 <= j < m@.len() ==> m@[j].0 != k@,
        decreases m.0.len() - i,
    {
        if m.0[i].0.eq(k) {
            proof {
                assert(m@[i as int].0 == k@);
            }
            return Some(i);
        }
        proof {
            assert(m@[i as int].0 != k@);
        }
        i += 1;
    }
    None
}

/// Index-wise merge of two value vectors.
fn merge_elems(a: &Vec<Value>, b: &Vec<Value>) -> (r: Vec<Value>)
    ensures
        views_of(r@) == elems_merge(views_of(a@), views_of(b@)),
    decreases *b,
{
    proof {
        lemma_elems_merge(views_of(a@), views_of(b@));
    }
    let len = if a.len() >= b.len() {
        a.len()
    } else {
        b.len()
    };
    let mut out: Vec<Value> = Vec::new();
    let mut i: usize = 0;
    while i < len
        invariant
            0 <= i <= len,
            len == if a.len() >= b.len() {
                a.len()
            } else {
                b.len()
            },
            out@.len() == i,
            forall|j: int|
                0 <= j < i ==> views_of(out@)[j] == elems_merge(views_of(a@), views_of(b@))[j],
            elems_merge(views_of(a@), views_of(b@)).len() == len,
            forall|j: int|
                0 <= j < len ==> elems_merge(views_of(a@), views_of(b@))[j] == if j < a@.len() && j
                    < b@.len() {
                    spec_merge(views_of(a@)[j], views_of(b@)[j])
                } else if j < a@.len() {
                    views_of(a@)[j]
                } else {
                    views_of(b@)[j]
                },
        decreases len - i,
    {
        let v = if i < a.len() && i < b.len() {
            a[i].merge(&b[i])
        } else if i < a.len() {
            value_dup(&a[i])
        } else {
            value_dup(&b[i])
        };
        let ghost old_o = out@;
        out.push(v);
        proof {
            assert(out@ == old_o.push(v));
            assert(forall|j: int| 0 <= j < i ==> out@[j] == old_o[j]);
            assert(forall|j: int|
                0 <= j < i ==> #[trigger] views_of(out@)[j] == views_of(old_o)[j]);
            assert(views_of(out@)[i as int] == v@);
            let em = elems_merge(views_of(a@), views_of(b@));
            assert(i < a@.len() ==> views_of(a@)[i as int] == crate::value::value_view(
                a@[i as int],
            ));
            assert(i < b@.len() ==> views_of(b@)[i as int] == crate::value::value_view(
                b@[i as int],
            ));
            assert(em[i as int] == v@);
        }
        i += 1;
    }
    proof {
        assert(views_of(out@) =~= elems_merge(views_of(a@), views_of(b@)));
    }
    out
}

/// Key-wise merge of two value-keyed maps.
fn merge_dict(a: &ValueMap, b: &ValueMap) -> (r: ValueMap)
    ensures
        r@ == dict_merge(a@, b@),
    decreases *b,
{
    let mut out = pairs_dup(a);
    let mut j: usize = 0;
    while j < b.0.len()
        invariant
            0 <= j <= b.0.len(),
            out@ == dict_merge(a@, b@.take(j as int)),
        decreases b.0.len() - j,
    {
        let ghost pre = out@;
        let key = &b.0[j].0;
        match dict_find(&out, key) {
            Some(i) => {
                let merged = out.0[i].1.merge(&b.0[j].1);
                let k_dup = value_dup(&out.0[i].0);
                let ghost old_out = out@;
                *vec_index_mut(&mut out.0, i) = (k_dup, merged);
                proof {
                    assert(out@ =~= old_out.update(
                        i as int,
                        (old_out[i as int].0, spec_merge(old_out[i as int].1, b@[j as int].1)),
                    ));
                }
            },
            None => {
                out.0.push((value_dup(key), value_dup(&b.0[j].1)));
                proof {
                    assert(out@ =~= pre.push((b@[j as int].0, b@[j as int].1)));
                }
            },
        }
        proof {
            assert(b@[j as int] == (b@[j as int].0, b@[j as int].1));
            assert(out@ == dict_insert_merge(pre, b@[j as int]));
            assert(b@.take(j + 1) =~= b@.take(j as int).push(b@[j as int]));
            lemma_dict_merge_push(a@, b@.take(j as int), b@[j as int]);
        }
        j += 1;
    }
    proof {
        assert(b@.take(b@.len() as int) =~= b@);
    }
    out
}

/// Field-wise merge of two string-keyed maps.
fn merge_fields(a: &FieldMap, b: &FieldMap) -> (r: FieldMap)
    ensures
        r@ == struct_merge(a@, b@),
    decreases *b,
{
    let mut out = crate::eq::fields_dup(a);
    let mut j: usize = 0;
    while j < b.0.len()
        invariant
            0 <= j <= b.0.len(),
            out@ == struct_merge(a@, b@.take(j as int)),
        decreases b.0.len() - j,
    {
        let ghost pre = out@;
        let key = &b.0[j].0;
        match field_find(&out, key) {
            Some(i) => {
                let merged = out.0[i].1.merge(&b.0[j].1);
                let k_dup = out.0[i].0.clone();
                let ghost old_out = out@;
                *vec_index_mut(&mut out.0, i) = (k_dup, merged);
                proof {
                    assert(out@ =~= old_out.update(
                        i as int,
                        (old_out[i as int].0, spec_merge(old_out[i as int].1, b@[j as int].1)),
                    ));
                }
            },
            None => {
                out.0.push((key.clone(), value_dup(&b.0[j].1)));
                proof {
                    assert(out@ =~= pre.push((b@[j as int].0, b@[j as int].1)));
                }
            },
        }
        proof {
            assert(b@[j as int] == (b@[j as int].0, b@[j as int].1));
            assert(out@ == struct_insert_merge(pre, b@[j as int]));
            assert(b@.take(j + 1) =~= b@.take(j as int).push(b@[j as int]));
            lemma_struct_merge_push(a@, b@.take(j as int), b@[j as int]);
        }
        j += 1;
    }
    proof {
        assert(b@.take(b@.len() as int) =~= b@);
    }
    out
}

/// Entries with the value at `k` replaced in place when the key is present,
/// else appended.
pub open spec fn spec_map_upsert(
    s: Seq<(ValueV, ValueV)>,
    k: ValueV,
    v: ValueV,
) -> Seq<(ValueV, ValueV)> {
    let i = key_index(s, k);
    if i >= 0 {
        s.update(i, (s[i].0, v))
    } else {
        s.push((k, v))
    }
}

/// Fields with the value at `k` replaced in place when the name is present,
/// else appended.
pub open spec fn spec_field_upsert(
    s: Seq<(Seq<char>, ValueV)>,
    k: Seq<char>,
    v: ValueV,
) -> Seq<(Seq<char>, ValueV)> {
    let i = field_index(s, k);
    if i >= 0 {
        s.update(i, (s[i].0, v))
    } else {
        s.push((k, v))
    }
}

impl ValueMap {
    /// An empty map.
    pub fn new() -> (r: Self)
        ensures
            r@ == Seq::<(ValueV, ValueV)>::empty(),
    {
        let r = ValueMap(Vec::new());
        proof {
            assert(r@ =~= Seq::<(ValueV, ValueV)>::empty());
        }
        r
    }

    /// An empty map with room reserved for `n` entries.
    pub fn with_capacity(n: usize) -> (r: Self)
        ensures
            r@ == Seq::<(ValueV, ValueV)>::empty(),
    {
        let r = ValueMap(Vec::with_capacity(n));
        proof {
            assert(r@ =~= Seq::<(ValueV, ValueV)>::empty());
        }
        r
    }

    /// The number of entries.
    pub fn len(&self) -> (r: usize)
        ensures
            r == self@.len(),
    {
        self.0.len()
    }

    /// Binds `k` to `v`: replaces the value in place when the key is already
    /// present, preserving insertion order, else appends the entry.
    pub fn insert(&mut self, k: Value, v: Value)
        ensures
            final(self)@ == spec_map_upsert(old(self)@, k@, v@),
    {
        let ghost pre = self@;
        match dict_find(&*self, &k) {
            Some(i) => {
                let kd = value_dup(&self.0[i].0);
                *vec_index_mut(&mut self.0, i) = (kd, v);
                proof {
                    assert(self@ =~= pre.update(i as int, (pre[i as int].0, v@)));
                }
            },
            None => {
                self.0.push((k, v));
                proof {
                    assert(self@ =~= pre.push((k@, v@)));
                }
            },
        }
    }

    /// The value bound to the first entry whose key equals `k`, if any.
    pub fn get(&self, k: &Value) -> (r: Option<&Value>)
        ensures
            r is Some <==> key_index(self@, k@) >= 0,
            r is Some ==> r->0@ == self@[key_index(self@, k@)].1,
    {
        match dict_find(self, k) {
            Some(i) => Some(&self.0[i].1),
            None => None,
        }
    }
}

impl FieldMap {
    /// An empty field map.
    pub fn new() -> (r: Self)
        ensures
            r@ == Seq::<(Seq<char>, ValueV)>::empty(),
    {
        let r = FieldMap(Vec::new());
        proof {
            assert(r@ =~= Seq::<(Seq<char>, ValueV)>::empty());
        }
        r
    }

    /// The number of fields.
    pub fn len(&self) -> (r: usize)
        ensures
            r == self@.len(),
    {
        self.0.len()
    }

    /// Binds field `k` to `v`: replaces the value in place when the name is
    /// already present, preserving insertion order, else appends the field.
    pub fn insert(&mut self, k: String, v: Value)
        ensures
            final(self)@ == spec_field_upsert(old(self)@, k@, v@),
    {
        let ghost pre = self@;
        match field_find(&*self, &k) {
            Some(i) => {
                let kd = self.0[i].0.clone();
                *vec_index_mut(&mut self.0, i) = (kd, v);
                proof {
                    assert(self@ =~= pre.update(i as int, (pre[i as int].0, v@)));
                }
            },
            None => {
                self.0.push((k, v));
                proof {
                    assert(self@ =~= pre.push((k@, v@)));
                }
            },
        }
    }

    /// The value of the first field named `k`, if any.
    pub fn get(&self, k: &String) -> (r: Option<&Value>)
        ensures
            r is Some <==> field_index(self@, k@) >= 0,
            r is Some ==> r->0@ == self@[field_index(self@, k@)].1,
    {
        match field_find(self, k) {
            Some(i) => Some(&self.0[i].1),
            None => None,
        }
    }
}

impl Value {
    /// Merge two generic values together giving priority to `other` on
    /// conflicts.
    pub fn merge(&self, other: &Self) -> (r: Self)
        ensures
            r@ == spec_merge(self@, other@),
        decreases *other,
    {
        if other.is_empty() {
            return value_dup(self);
        }
        if self.is_empty() {
            return value_dup(other);
        }
        match (self, other) {
            (Value::Option(x), Value::Option(y)) => {
                let inner = match (x, y) {
                    (x, None) => {
                        match x {
                            Some(bx) => Some(Box::new(value_dup(bx))),
                            None => None,
                        }
                    },
                    (None, Some(bv)) => Some(Box::new(value_dup(bv))),
                    (Some(av), Some(bv)) => Some(Box::new(av.merge(bv))),
                };
                Value::Option(inner)
            },
            (Value::Dict(m1), Value::Dict(m2)) => Value::Dict(merge_dict(m1, m2)),
            (Value::Struct(id1, m1), Value::Struct(id2, m2)) => {
                let id = match (id1, id2) {
                    (_, Some(s2)) => Some(s2.clone()),
                    (Some(s1), None) => Some(s1.clone()),
                    (None, None) => None,
                };
                Value::Struct(id, merge_fields(m1, m2))
            },
            (Value::List(l1), Value::List(l2)) => Value::List(merge_elems(l1, l2)),
            (Value::Tuple(t1), Value::Tuple(t2)) => Value::Tuple(merge_elems(t1, t2)),
            (Value::NamedTuple(n1, t1), Value::NamedTuple(n2, t2)) => {
                if n1.eq(n2) {
                    Value::NamedTuple(n1.clone(), merge_elems(t1, t2))
                } else {
                    value_dup(other)
                }
            },
            (_, _) => value_dup(other),
        }
    }
}

} // verus!
