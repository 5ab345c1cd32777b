//! Items that are told apart by an identifier.

use uuid::Uuid;
use vstd::prelude::*;

verus! {

/// Something with an identifier by which it is found again.
pub trait Identified {
    spec fn spec_id(&self) -> u128;

    fn id(&self) -> (id: u128)
        ensures
            id == self.spec_id(),
    ;
}

/// Whether `id` is a random UUID as a number: of its 128 bits, counted from
/// the lowest, bits 76 to 79 hold the version 4 and bits 62 and 63 the
/// variant of RFC 4122. The other 122 bits are left to chance.
pub open spec fn is_random_uuid(id: u128) -> bool {
    &&& ((id >> 76) & 0xf) == 4
    &&& ((id >> 62) & 0x3) == 2
}

/// `Uuid::new_v4` of uuid, read by `Uuid::as_u128`: 128 random bits of which
/// those of the version are set to 4 and those of the variant to that of
/// RFC 4122.
#[verifier::external_body]
pub(crate) fn random_id() -> (id: u128)
    ensures
        is_random_uuid(id),
{
    Uuid::new_v4().as_u128()
}

/// A fresh identifier for a new item: a random version 4 UUID as a number.
pub fn new_id() -> (id: u128)
    ensures
        is_random_uuid(id),
{
    random_id()
}

/// Whether an item has another identifier than `id`.
pub open spec fn other_than<T: Identified>(id: u128) -> spec_fn(T) -> bool {
    |item: T| item.spec_id() != id
}

/// The items whose identifier is not `id`, in their order.
pub open spec fn without<T: Identified>(items: Seq<T>, id: u128) -> Seq<T> {
    items.filter(other_than(id))
}

/// Takes every item with identifier `id` out of `items`; the others stay as
/// they are and in their order.
pub fn remove_by_id<T: Identified>(items: &mut Vec<T>, id: u128)
    ensures
        final(items)@ == without(old(items)@, id),
{
    let ghost whole = items@;
    let ghost keep = other_than::<T>(id);
    let ghost mut seen: int = 0;
    let mut i: usize = 0;
    proof {
        reveal(Seq::filter);
        assert(whole.take(0).filter(keep) =~= items@.take(0));
    }
    while i < items.len()
        invariant
            0 <= i <= items@.len(),
            i <= seen <= whole.len(),
            items@.len() - i == whole.len() - seen,
            keep == other_than::<T>(id),
            items@.take(i as int) == whole.take(seen).filter(keep),
            items@.skip(i as int) == whole.skip(seen),
        decreases items@.len() - i,
    {
        let ghost before = items@;
        assert(before[i as int] == before.skip(i as int)[0]);
        assert(whole.skip(seen)[0] == whole[seen]);
        proof {
            reveal(Seq::filter);
            assert(whole.take(seen + 1).drop_last() =~= whole.take(seen));
        }
        if items[i].id() == id {
            let _ = items.remove(i);
            assert(items@.take(i as int) =~= before.take(i as int));
            assert(items@.skip(i as int) =~= before.skip(i as int).skip(1));
            assert(whole.skip(seen).skip(1) =~= whole.skip(seen + 1));
        } else {
            assert(before.take(i + 1) =~= before.take(i as int).push(before[i as int]));
            assert(before.skip(i + 1) =~= before.skip(i as int).skip(1));
            assert(whole.skip(seen).skip(1) =~= whole.skip(seen + 1));
            i += 1;
        }
        proof {
            seen = seen + 1;
        }
    }
    assert(items@ =~= items@.take(i as int));
    assert(whole =~= whole.take(seen));
}

} // verus!
