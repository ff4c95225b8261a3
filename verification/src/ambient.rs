use vstd::prelude::*;

verus! {

/// `std::time::Instant`, a reading of the monotonic clock. Nothing is known
/// of what a value holds; the library only stores it.
#[verifier::external_type_specification]
#[verifier::external_body]
pub struct ExInstant(std::time::Instant);

/// Reads the monotonic clock with `std::time::Instant::now`. Which instant
/// comes back depends on when the call is made, so nothing is claimed of it.
#[verifier::external_body]
pub(crate) fn current_instant() -> std::time::Instant {
    std::time::Instant::now()
}

/// The bits of an identifier that tell what kind of UUID it is: the version
/// in the high four bits of the seventh byte, the variant in the high two
/// bits of the ninth.
pub const UUID_KIND_MASK: u128 = 0x0000_0000_0000_f000_c000_0000_0000_0000;

/// What those bits hold in a random UUID: version 4, RFC variant.
pub const UUID_RANDOM_KIND: u128 = 0x0000_0000_0000_4000_8000_0000_0000_0000;

/// True of the identifiers that are random (version 4) UUIDs of the RFC
/// variant.
pub open spec fn is_random_uuid(id: u128) -> bool {
    id & UUID_KIND_MASK == UUID_RANDOM_KIND
}

/// Draws a fresh identifier with `uuid::Uuid::new_v4` and hands it out as
/// the 128-bit number that `Uuid::as_u128` gives for it. The number is
/// random but for the six bits that mark a random (version 4) UUID of the
/// RFC variant, which `new_v4` sets on every value; this is all the
/// contract claims. `new_v4` panics if the operating system cannot supply
/// random bytes.
#[verifier::external_body]
pub(crate) fn fresh_id() -> (id: u128)
    ensures
        is_random_uuid(id),
{
    uuid::Uuid::new_v4().as_u128()
}

} // verus!
