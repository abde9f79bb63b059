//! Identifiers: the 128-bit value of a random UUID.

use vstd::prelude::*;

verus! {

/// The 128-bit value has the layout of a random (version 4) UUID: the
/// version field, bits 76 to 79, holds 4, and the variant field, bits 62 and
/// 63, holds binary `10`.
pub open spec fn is_version_4(id: u128) -> bool {
    (id >> 76) & 0xf == 4 && (id >> 62) & 0x3 == 2
}

/// Draws an identifier with `uuid::Uuid::new_v4` and hands it on as the
/// 128-bit number that `Uuid::as_u128` gives for it.
///
/// Trusted, not proved: `new_v4` overwrites the version and variant fields of
/// 128 random bits, so every outcome satisfies `is_version_4`. Nothing else
/// is claimed of the result; in particular two calls may or may not differ.
/// The bits come from the operating system's random source, and `new_v4`
/// panics if that source fails.
#[verifier::external_body]
pub(crate) fn random_id() -> (id: u128)
    ensures
        is_version_4(id),
{
    uuid::Uuid::new_v4().as_u128()
}

} // verus!
