use vstd::prelude::*;

use roaring::RoaringBitmap;

verus! {

#[verifier::external_type_specification]
#[verifier::external_body]
pub struct ExRoaringBitmap(RoaringBitmap);

/// The record ids a bitmap holds.
pub uninterp spec fn bitmap_ids(b: RoaringBitmap) -> Set<u32>;

/// Relies on RoaringBitmap::new: the bitmap starts empty.
#[verifier::external_body]
pub(crate) fn new_bitmap() -> (r: RoaringBitmap)
    ensures
        bitmap_ids(r) == Set::<u32>::empty(),
{
    RoaringBitmap::new()
}

/// Relies on RoaringBitmap::insert: adds the id, and reports whether it was absent.
#[verifier::external_body]
pub(crate) fn bitmap_insert(b: &mut RoaringBitmap, id: u32) -> (r: bool)
    ensures
        bitmap_ids(*final(b)) == bitmap_ids(*old(b)).insert(id),
        r == !bitmap_ids(*old(b)).contains(id),
{
    b.insert(id)
}

/// Relies on RoaringBitmap::remove: takes the id out, and reports whether it was present.
#[verifier::external_body]
pub(crate) fn bitmap_remove(b: &mut RoaringBitmap, id: u32) -> (r: bool)
    ensures
        bitmap_ids(*final(b)) == bitmap_ids(*old(b)).remove(id),
        r == bitmap_ids(*old(b)).contains(id),
{
    b.remove(id)
}

/// Relies on RoaringBitmap::contains: membership of one id.
#[verifier::external_body]
pub(crate) fn bitmap_contains(b: &RoaringBitmap, id: u32) -> (r: bool)
    ensures
        r == bitmap_ids(*b).contains(id),
{
    b.contains(id)
}

/// Relies on `RoaringBitmap |= &RoaringBitmap`: the union of the two sets.
#[verifier::external_body]
pub(crate) fn bitmap_union_with(b: &mut RoaringBitmap, other: &RoaringBitmap)
    ensures
        bitmap_ids(*final(b)) == bitmap_ids(*old(b)).union(bitmap_ids(*other)),
{
    std::ops::BitOrAssign::bitor_assign(b, other)
}

} // verus!
