//! UUIDs, as numbers of 128 bits.
use crate::text::hexadecimal;
use vstd::prelude::*;

verus! {

/// The version 5 UUID that `uuid::Uuid::new_v5` gives a name in the OID namespace.
pub uninterp spec fn uuid_v5_in_oid(name: Seq<char>) -> u128;

/// Calls `uuid::Uuid::new_v5` on the OID namespace and the bytes of a name. The claim:
/// the UUID depends on the name alone.
#[verifier::external_body]
pub(crate) fn name_uuid(name: &str) -> (r: u128)
    ensures
        r == uuid_v5_in_oid(name@),
{
    uuid::Uuid::new_v5(&uuid::Uuid::NAMESPACE_OID, name.as_bytes()).as_u128()
}

/// Whether a UUID has the version and the variant of those that are drawn from the time.
pub open spec fn is_version_7(uuid: u128) -> bool {
    (uuid as nat / 0x1000_0000_0000_0000_0000) % 16 == 7 && (uuid as nat / 0x4000_0000_0000_0000)
        % 4 == 2
}

/// Calls `uuid::Uuid::now_v7`. The claim is what holds of every version 7 UUID: its
/// version and its variant. That later calls give greater UUIDs is left unsaid.
#[verifier::external_body]
pub(crate) fn fresh_uuid() -> (r: u128)
    ensures
        is_version_7(r),
{
    uuid::Uuid::now_v7().as_u128()
}

/// The text of a UUID: 32 hexadecimal digits, with a hyphen after the eighth, twelfth,
/// sixteenth and twentieth.
pub open spec fn hyphenated(uuid: u128) -> Seq<char> {
    let digits = hexadecimal(uuid as nat, 32);
    digits.subrange(0, 8) + "-"@ + digits.subrange(8, 12) + "-"@ + digits.subrange(12, 16) + "-"@
        + digits.subrange(16, 20) + "-"@ + digits.subrange(20, 32)
}

/// Calls `to_string` on `uuid::fmt::Hyphenated`. The claim: it writes the digits in
/// groups, in lower case.
#[verifier::external_body]
pub(crate) fn uuid_text(uuid: u128) -> (r: String)
    ensures
        r@ == hyphenated(uuid),
{
    uuid::Uuid::from_u128(uuid).as_hyphenated().to_string()
}

} // verus!
