//! Identifiers of scene entities.

use vstd::prelude::*;
use uuid::Uuid;

verus! {

/// `uuid::Uuid`, a 128-bit identifier. It is carried and compared, never
/// looked into.
#[verifier::external_type_specification]
#[verifier::external_body]
pub struct ExUuid(uuid::Uuid);

/// `Uuid` is `Copy`, and its `Clone` is the derived one: a clone is the
/// identifier itself.
pub assume_specification[ <uuid::Uuid as Clone>::clone ](id: &uuid::Uuid) -> (res: uuid::Uuid)
    ensures
        res == *id,
;

/// Mints a random identifier with `uuid::Uuid::new_v4`. The value depends on
/// the operating system's random source, so nothing is promised of it. Where
/// the system gives no random bytes, `new_v4` panics.
#[verifier::external_body]
pub(crate) fn fresh_uuid() -> (id: Uuid) {
    Uuid::new_v4()
}

} // verus!
