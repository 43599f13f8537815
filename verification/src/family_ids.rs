//! The queue-family identifier list that image creation collects before
//! choosing a sharing mode. It is kept in a `smallvec::SmallVec` with
//! four inline slots, as the identifiers almost always fit without a
//! heap allocation. The holder struct is opaque to the verifier; its
//! contents are named by an uninterpreted view that the trusted wrappers
//! below relate to the calls they make.

use vstd::prelude::*;
use smallvec::SmallVec;

verus! {

/// An ordered list of queue-family identifiers, backed by a
/// `smallvec::SmallVec<[u32; 4]>`.
#[verifier::external_body]
pub struct FamilyIdList {
    inner: SmallVec<[u32; 4]>,
}

/// The elements a family-identifier list holds, in order.
pub uninterp spec fn family_ids_view(v: FamilyIdList) -> Seq<u32>;

/// Relies on smallvec::SmallVec::new: a freshly constructed vector is
/// empty.
#[verifier::external_body]
pub fn family_ids_new() -> (r: FamilyIdList)
    ensures
        family_ids_view(r) == Seq::<u32>::empty(),
{
    FamilyIdList { inner: SmallVec::new() }
}

/// Relies on smallvec::SmallVec::push: appends the element at the end,
/// keeping the existing elements in place.
#[verifier::external_body]
pub fn family_ids_push(v: &mut FamilyIdList, id: u32)
    requires
        family_ids_view(*old(v)).len() < usize::MAX,
    ensures
        family_ids_view(*final(v)) == family_ids_view(*old(v)).push(id),
{
    v.inner.push(id)
}

/// Relies on smallvec::SmallVec::len: the number of elements held.
#[verifier::external_body]
pub fn family_ids_len(v: &FamilyIdList) -> (r: usize)
    ensures
        r == family_ids_view(*v).len(),
{
    v.inner.len()
}

/// Relies on smallvec::SmallVec::as_slice: the elements in insertion
/// order, here copied out into a plain vector.
#[verifier::external_body]
pub fn family_ids_to_vec(v: &FamilyIdList) -> (r: Vec<u32>)
    ensures
        r@ == family_ids_view(*v),
{
    v.inner.as_slice().to_vec()
}

} // verus!
