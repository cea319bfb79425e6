//! The identifiers of services and characteristics.

use uuid::Uuid;
use vstd::prelude::*;

verus! {

/// The outside type `uuid::Uuid`, carried through unopened.
#[verifier::external_type_specification]
#[verifier::external_body]
pub struct ExUuid(uuid::Uuid);

/// Calls the `==` that `uuid::Uuid` derives over its sixteen bytes. It claims that two
/// identifiers compare equal exactly when they are the same value.
#[verifier::external_body]
fn same_uuid(left: &Uuid, right: &Uuid) -> (same: bool)
    ensures
        same == (*left == *right),
{
    left == right
}

/// The first position at which `uuid` stands in `list`, where it stands there at all.
pub(crate) fn position_of(list: &[Uuid], uuid: &Uuid) -> (position: Option<usize>)
    ensures
        match position {
            Some(at) => {
                &&& at < list@.len()
                &&& list@[at as int] == *uuid
                &&& !list@.take(at as int).contains(*uuid)
            },
            None => !list@.contains(*uuid),
        },
{
    for at in 0..list.len()
        invariant
            !list@.take(at as int).contains(*uuid),
    {
        if same_uuid(&list[at], uuid) {
            return Some(at);
        }
        proof {
            let before = list@.take(at as int);
            let after = list@.take(at + 1);
            if after.contains(*uuid) {
                let i = choose|i: int| 0 <= i < after.len() && after[i] == *uuid;
                assert(before[i] == *uuid);
            }
        }
    }
    proof {
        assert(list@.take(list@.len() as int) =~= list@);
    }
    None
}

} // verus!
