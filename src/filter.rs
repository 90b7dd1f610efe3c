use vstd::prelude::*;

use dashmap::DashMap;
use roaring::RoaringBitmap;

use crate::bitmap::{bitmap_ids, bitmap_insert, bitmap_remove, bitmap_union_with, new_bitmap};
use crate::error::AppError;

verus! {

#[verifier::external_type_specification]
#[verifier::external_body]
#[verifier::reject_recursive_types(K)]
#[verifier::reject_recursive_types(V)]
#[verifier::reject_recursive_types(S)]
pub struct ExDashMap<K, V, S>(DashMap<K, V, S>);

/// The buckets of one field: each value with the ids of the bitmap stored for it.
pub uninterp spec fn value_buckets(m: DashMap<i64, RoaringBitmap>) -> Map<i64, Set<u32>>;

/// The buckets of every field: each field name with the buckets of its inner map.
pub uninterp spec fn field_buckets(m: DashMap<String, DashMap<i64, RoaringBitmap>>) -> Map<
    Seq<char>,
    Map<i64, Set<u32>>,
>;

/// Relies on DashMap::new: the map starts empty.
#[verifier::external_body]
fn new_field_map() -> (r: DashMap<String, DashMap<i64, RoaringBitmap>>)
    ensures
        field_buckets(r) =~= Map::empty(),
{
    DashMap::new()
}

/// Relies on DashMap::new: the map starts empty.
#[verifier::external_body]
fn new_value_map() -> (r: DashMap<i64, RoaringBitmap>)
    ensures
        value_buckets(r) =~= Map::empty(),
{
    DashMap::new()
}

/// Relies on DashMap::get, once on each level: a copy of the bitmap stored
/// under the value in the buckets of the field, if any.
#[verifier::external_body]
fn field_bucket_get(
    m: &DashMap<String, DashMap<i64, RoaringBitmap>>,
    field: &String,
    value: i64,
) -> (r: Option<RoaringBitmap>)
    ensures
        match r {
            Some(b) => buckets_of(field_buckets(*m), field@).contains_key(value) && bitmap_ids(b)
                == buckets_of(field_buckets(*m), field@)[value],
            None => !buckets_of(field_buckets(*m), field@).contains_key(value),
        },
{
    m.get(field).and_then(|inner| inner.get(&value).map(|e| e.value().clone()))
}

/// Relies on DashMap::get and DashMap::iter: every bucket of the field once,
/// each value with a copy of its bitmap; none where the field is absent.
#[verifier::external_body]
fn field_bucket_entries(m: &DashMap<String, DashMap<i64, RoaringBitmap>>, field: &String) -> (r:
    Vec<(i64, RoaringBitmap)>)
    ensures
        forall|i: int, j: int| 0 <= i < j < r@.len() ==> r@[i].0 != r@[j].0,
        forall|i: int|
            0 <= i < r@.len() ==> buckets_of(field_buckets(*m), field@).contains_key(
                #[trigger] r@[i].0,
            ) && bitmap_ids(r@[i].1) == buckets_of(field_buckets(*m), field@)[r@[i].0],
        forall|v: i64|
            buckets_of(field_buckets(*m), field@).contains_key(v) ==> exists|i: int|
                0 <= i < r@.len() && #[trigger] r@[i].0 == v,
{
    match m.get(field) {
        Some(inner) => inner.iter().map(|e| (*e.key(), e.value().clone())).collect(),
        None => Vec::new(),
    }
}

/// Relies on DashMap::remove: takes the buckets of the field out of the map.
#[verifier::external_body]
fn field_take(m: &mut DashMap<String, DashMap<i64, RoaringBitmap>>, field: &String) -> (r: Option<
    DashMap<i64, RoaringBitmap>,
>)
    ensures
        match r {
            Some(b) => field_buckets(*old(m)).contains_key(field@) && value_buckets(b)
                == field_buckets(*old(m))[field@],
            None => !field_buckets(*old(m)).contains_key(field@),
        },
        field_buckets(*final(m)) == field_buckets(*old(m)).remove(field@),
{
    m.remove(field).map(|(_, b)| b)
}

/// Relies on DashMap::insert: the field now maps to the given buckets.
#[verifier::external_body]
fn field_insert(
    m: &mut DashMap<String, DashMap<i64, RoaringBitmap>>,
    field: String,
    b: DashMap<i64, RoaringBitmap>,
)
    ensures
        field_buckets(*final(m)) == field_buckets(*old(m)).insert(field@, value_buckets(b)),
{
    m.insert(field, b);
}

/// Relies on DashMap::remove: takes the bitmap of the value out of the map.
#[verifier::external_body]
fn value_take(m: &mut DashMap<i64, RoaringBitmap>, value: i64) -> (r: Option<RoaringBitmap>)
    ensures
        match r {
            Some(b) => value_buckets(*old(m)).contains_key(value) && bitmap_ids(b) == value_buckets(
                *old(m),
            )[value],
            None => !value_buckets(*old(m)).contains_key(value),
        },
        value_buckets(*final(m)) == value_buckets(*old(m)).remove(value),
{
    m.remove(&value).map(|(_, b)| b)
}

/// Relies on DashMap::insert: the value now maps to the given bitmap.
#[verifier::external_body]
fn value_insert(m: &mut DashMap<i64, RoaringBitmap>, value: i64, b: RoaringBitmap)
    ensures
        value_buckets(*final(m)) == value_buckets(*old(m)).insert(value, bitmap_ids(b)),
{
    m.insert(value, b);
}

/// Relies on DashMap::iter: every value that has a bucket, once.
#[verifier::external_body]
fn value_keys(m: &DashMap<i64, RoaringBitmap>) -> (r: Vec<i64>)
    ensures
        forall|i: int| 0 <= i < r@.len() ==> value_buckets(*m).contains_key(#[trigger] r@[i]),
        forall|v: i64|
            value_buckets(*m).contains_key(v) ==> exists|i: int| 0 <= i < r@.len() && #[trigger] r@[i] == v,
{
    m.iter().map(|e| *e.key()).collect()
}

/// The comparison a filter applies to a field.
pub enum Operation {
    Equal,
    NotEqual,
}

pub open spec fn operation_symbol(op: Operation) -> Seq<char> {
    match op {
        Operation::Equal => "=="@,
        Operation::NotEqual => "!="@,
    }
}

impl Operation {
    pub fn symbol(&self) -> (r: &'static str)
        ensures
            r@ == operation_symbol(*self),
    {
        match self {
            Operation::Equal => "==",
            Operation::NotEqual => "!=",
        }
    }
}

/// The bucket of one value, or the empty set where the value has none.
pub open spec fn bucket_or_empty(b: Map<i64, Set<u32>>, value: i64) -> Set<u32> {
    if b.contains_key(value) {
        b[value]
    } else {
        Set::empty()
    }
}

/// The ids of every bucket but the one of `value`.
pub open spec fn union_except(b: Map<i64, Set<u32>>, value: i64) -> Set<u32> {
    Set::new(|id: u32| exists|v: i64| b.contains_key(v) && v != value && #[trigger] b[v].contains(id))
}

/// The ids a lookup with `op` and `value` selects from a field's buckets.
pub open spec fn selected(b: Map<i64, Set<u32>>, op: Operation, value: i64) -> Set<u32> {
    match op {
        Operation::Equal => bucket_or_empty(b, value),
        Operation::NotEqual => union_except(b, value),
    }
}

/// The buckets of a field, or none where the field was never set.
pub open spec fn buckets_of(f: Map<Seq<char>, Map<i64, Set<u32>>>, field: Seq<char>) -> Map<
    i64,
    Set<u32>,
> {
    if f.contains_key(field) {
        f[field]
    } else {
        Map::empty()
    }
}

/// The buckets with `id` taken out of every one of them.
pub open spec fn cleared(b: Map<i64, Set<u32>>, id: u32) -> Map<i64, Set<u32>> {
    Map::new(|v: i64| b.contains_key(v), |v: i64| b[v].remove(id))
}

/// The buckets with `id` added to the bucket of `value`, which is made if missing.
pub open spec fn with_id(b: Map<i64, Set<u32>>, value: i64, id: u32) -> Map<i64, Set<u32>> {
    b.insert(value, bucket_or_empty(b, value).insert(id))
}

/// The filter after `id` leaves every bucket of `field` and joins that of
/// `new_value`.
pub open spec fn updated(
    f: Map<Seq<char>, Map<i64, Set<u32>>>,
    field: Seq<char>,
    new_value: i64,
    id: u32,
) -> Map<Seq<char>, Map<i64, Set<u32>>> {
    f.insert(field, with_id(cleared(buckets_of(f, field), id), new_value, id))
}

/// After any update, `id` sits in exactly one bucket of the field, that of the
/// new value, so no sequence of updates puts an id in two buckets of a field.
/// Every other id keeps the buckets it had, and other fields are untouched.
pub proof fn lemma_update_keeps_single_bucket(
    f: Map<Seq<char>, Map<i64, Set<u32>>>,
    field: Seq<char>,
    new_value: i64,
    id: u32,
)
    ensures
        forall|v: i64|
            #![trigger buckets_of(updated(f, field, new_value, id), field)[v]]
            buckets_of(updated(f, field, new_value, id), field).contains_key(v) && buckets_of(
                updated(f, field, new_value, id),
                field,
            )[v].contains(id) <==> v == new_value,
        forall|v: i64, other: u32|
            other != id && buckets_of(f, field).contains_key(v) && #[trigger] buckets_of(
                f,
                field,
            )[v].contains(other) ==> buckets_of(updated(f, field, new_value, id), field)[v].contains(
                other,
            ),
        forall|g: Seq<char>|
            g != field ==> #[trigger] buckets_of(updated(f, field, new_value, id), g) == buckets_of(
                f,
                g,
            ),
{
    let a = buckets_of(updated(f, field, new_value, id), field);
    assert(a == with_id(cleared(buckets_of(f, field), id), new_value, id));
}

/// Inverted bitmap indexes over integer fields: field name, then value, then
/// the ids of the records whose field holds that value. Updates take `&mut
/// self`, so an update of one id is never seen half done; callers that share
/// the index between threads hold it behind a lock.
pub struct FilterIndex {
    int_field_filter: DashMap<String, DashMap<i64, RoaringBitmap>>,
}

impl View for FilterIndex {
    type V = Map<Seq<char>, Map<i64, Set<u32>>>;

    closed spec fn view(&self) -> Self::V {
        field_buckets(self.int_field_filter)
    }
}

impl FilterIndex {
    pub fn new() -> (r: FilterIndex)
        ensures
            r@ == Map::<Seq<char>, Map<i64, Set<u32>>>::empty(),
    {
        FilterIndex { int_field_filter: new_field_map() }
    }

    /// Adds to `result_bitmap` the ids of the bucket of `value` (`Equal`) or
    /// of every other bucket of the field (`NotEqual`). A value or a field
    /// that was never set has no ids, so the bitmap then stays as it was.
    /// The index is only read.
    pub fn get_int_field_filter_bitmap(
        &self,
        field: String,
        op: Operation,
        value: i64,
        result_bitmap: &mut RoaringBitmap,
    ) -> (r: Result<(), AppError>)
        ensures
            r is Ok,
            bitmap_ids(*final(result_bitmap)) == bitmap_ids(*old(result_bitmap)).union(
                selected(buckets_of(self@, field@), op, value),
            ),
            !self@.contains_key(field@) ==> *final(result_bitmap) == *old(result_bitmap),
    {
        let ghost m = buckets_of(self@, field@);
        match op {
            Operation::Equal => {
                match field_bucket_get(&self.int_field_filter, &field, value) {
                    Some(b) => bitmap_union_with(result_bitmap, &b),
                    None => {
                        assert(bitmap_ids(*result_bitmap).union(Set::empty()) =~= bitmap_ids(
                            *result_bitmap,
                        ));
                    },
                }
            },
            Operation::NotEqual => {
                let entries = field_bucket_entries(&self.int_field_filter, &field);
                let ghost start = bitmap_ids(*result_bitmap);
                let mut i: usize = 0;
                while i < entries.len()
                    invariant
                        0 <= i <= entries@.len(),
                        m == buckets_of(self@, field@),
                        forall|a: int, c: int| 0 <= a < c < entries@.len() ==> entries@[a].0 != entries@[c].0,
                        forall|a: int|
                            0 <= a < entries@.len() ==> m.contains_key(#[trigger] entries@[a].0)
                                && bitmap_ids(entries@[a].1) == m[entries@[a].0],
                        forall|v: i64|
                            m.contains_key(v) ==> exists|a: int|
                                0 <= a < entries@.len() && #[trigger] entries@[a].0 == v,
                        !self@.contains_key(field@) ==> *result_bitmap == *old(result_bitmap),
                        bitmap_ids(*result_bitmap) == start.union(
                            Set::new(
                                |id: u32|
                                    exists|a: int|
                                        0 <= a < i && entries@[a].0 != value
                                            && #[trigger] bitmap_ids(entries@[a].1).contains(id),
                            ),
                        ),
                    decreases entries.len() - i,
                {
                    let ghost before = bitmap_ids(*result_bitmap);
                    if entries[i].0 != value {
                        bitmap_union_with(result_bitmap, &entries[i].1);
                    }
                    proof {
                        let seen_next = Set::new(
                            |id: u32|
                                exists|a: int|
                                    0 <= a < i + 1 && entries@[a].0 != value
                                        && #[trigger] bitmap_ids(entries@[a].1).contains(id),
                        );
                        assert(bitmap_ids(*result_bitmap) =~= start.union(seen_next)) by {
                            assert forall|id: u32| #[trigger]
                                seen_next.contains(id) implies bitmap_ids(
                                *result_bitmap,
                            ).contains(id) by {
                                let a = choose|a: int|
                                    0 <= a < i + 1 && entries@[a].0 != value
                                        && #[trigger] bitmap_ids(entries@[a].1).contains(id);
                                if a < i {
                                    assert(before.contains(id));
                                }
                            }
                            assert forall|id: u32| #[trigger]
                                bitmap_ids(*result_bitmap).contains(id) && !start.contains(id)
                                implies seen_next.contains(id) by {
                                if !before.contains(id) {
                                    assert(bitmap_ids(entries@[i as int].1).contains(id));
                                } else {
                                    let a = choose|a: int|
                                        0 <= a < i && entries@[a].0 != value
                                            && #[trigger] bitmap_ids(entries@[a].1).contains(id);
                                    assert(0 <= a < i + 1);
                                }
                            }
                        }
                    }
                    i = i + 1;
                }
                proof {
                    let seen = Set::new(
                        |id: u32|
                            exists|a: int|
                                0 <= a < entries@.len() && entries@[a].0 != value
                                    && #[trigger] bitmap_ids(entries@[a].1).contains(id),
                    );
                    assert(seen =~= union_except(m, value)) by {
                        assert forall|id: u32| #[trigger]
                            union_except(m, value).contains(id) implies seen.contains(id) by {
                            let v = choose|v: i64|
                                m.contains_key(v) && v != value && #[trigger] m[v].contains(id);
                            let a = choose|a: int| 0 <= a < entries@.len() && #[trigger] entries@[a].0 == v;
                            assert(bitmap_ids(entries@[a].1).contains(id));
                        }
                        assert forall|id: u32| #[trigger]
                            seen.contains(id) implies union_except(m, value).contains(id) by {
                            let a = choose|a: int|
                                0 <= a < entries@.len() && entries@[a].0 != value
                                    && #[trigger] bitmap_ids(entries@[a].1).contains(id);
                            let v = entries@[a].0;
                            assert(m[v].contains(id));
                        }
                    }
                }
            },
        }
        proof {
            if !self@.contains_key(field@) {
                assert(m =~= Map::<i64, Set<u32>>::empty());
            }
        }
        Ok(())
    }

    /// Moves `id` into the bucket of `new_value`, making the field and the
    /// bucket where missing. The id is first taken out of every bucket of the
    /// field, so it ends in exactly one bucket whatever `old_value` says;
    /// `old_value`, the value the caller last set, is not needed for that.
    pub fn update_int_field_filter(
        &mut self,
        field: String,
        old_value: Option<i64>,
        new_value: i64,
        id: u32,
    ) -> (r: Result<(), AppError>)
        ensures
            r is Ok,
            final(self)@ == updated(old(self)@, field@, new_value, id),
    {
        let _ = old_value;
        let ghost before = self@;
        let ghost b0 = buckets_of(before, field@);
        let mut buckets = match field_take(&mut self.int_field_filter, &field) {
            Some(b) => b,
            None => new_value_map(),
        };
        assert(value_buckets(buckets) == b0);
        let keys = value_keys(&buckets);
        let mut i: usize = 0;
        while i < keys.len()
            invariant
                0 <= i <= keys@.len(),
                field_buckets(self.int_field_filter) == before.remove(field@),
                forall|a: int| 0 <= a < keys@.len() ==> b0.contains_key(#[trigger] keys@[a]),
                forall|v: i64| b0.contains_key(v) ==> exists|a: int| 0 <= a < keys@.len() && #[trigger] keys@[a] == v,
                forall|v: i64| #[trigger] value_buckets(buckets).contains_key(v) == b0.contains_key(v),
                forall|v: i64|
                    b0.contains_key(v) ==> (#[trigger] value_buckets(buckets)[v] == b0[v]
                        || value_buckets(buckets)[v] == b0[v].remove(id)),
                forall|a: int|
                    0 <= a < i ==> value_buckets(buckets)[#[trigger] keys@[a]] == b0[keys@[a]].remove(id),
            decreases keys.len() - i,
        {
            let k = keys[i];
            let ghost vb = value_buckets(buckets);
            if let Some(mut bitmap) = value_take(&mut buckets, k) {
                bitmap_remove(&mut bitmap, id);
                value_insert(&mut buckets, k, bitmap);
                assert(b0[k].remove(id).remove(id) =~= b0[k].remove(id));
                assert(value_buckets(buckets) =~= vb.insert(k, vb[k].remove(id)));
            }
            i = i + 1;
        }
        proof {
            assert forall|v: i64| b0.contains_key(v) implies #[trigger] value_buckets(buckets)[v]
                == b0[v].remove(id) by {
                let a = choose|a: int| 0 <= a < keys@.len() && #[trigger] keys@[a] == v;
            }
            assert(value_buckets(buckets) =~= cleared(b0, id));
        }
        let ghost w = value_buckets(buckets);
        let mut bitmap = match value_take(&mut buckets, new_value) {
            Some(b) => b,
            None => new_bitmap(),
        };
        bitmap_insert(&mut bitmap, id);
        value_insert(&mut buckets, new_value, bitmap);
        assert(value_buckets(buckets) =~= with_id(w, new_value, id));
        field_insert(&mut self.int_field_filter, field, buckets);
        assert(self@ =~= updated(before, field@, new_value, id));
        Ok(())
    }
}

} // verus!
