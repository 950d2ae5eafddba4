//! Unique ids for log messages.
use vstd::prelude::*;

verus! {

#[verifier::external_type_specification]
#[verifier::external_body]
pub struct ExUuid(uuid::Uuid);

/// The sixteen bytes of the name-based (SHA-1, version 5) UUID of `name`
/// in the namespace whose bytes are `namespace`.
pub uninterp spec fn name_based_uuid(namespace: Seq<u8>, name: Seq<u8>) -> Seq<u8>;

/// The version of a UUID, from the high nibble of its byte 6.
pub open spec fn uuid_version(b: Seq<u8>) -> int {
    b[6] as int / 16
}

/// Whether a UUID carries the RFC 4122 variant: the top two bits of its
/// byte 8 are `10`.
pub open spec fn is_rfc4122(b: Seq<u8>) -> bool {
    b[8] as int / 64 == 2
}

/// The text of the nil UUID, `00000000-0000-0000-0000-000000000000`, as
/// ASCII bytes (`-` is 45, `0` is 48).
pub open spec fn nil_uuid_text() -> Seq<u8> {
    Seq::new(36, |i: int| if i == 8 || i == 13 || i == 18 || i == 23 { 45u8 } else { 48u8 })
}

/// Relies on uuid::Uuid::new_v4 (with into_bytes): random bytes, except that
/// it sets the version to 4 and the RFC 4122 variant.
#[verifier::external_body]
fn random_uuid_bytes() -> (r: [u8; 16])
    ensures
        uuid_version(r@) == 4,
        is_rfc4122(r@),
{
    uuid::Uuid::new_v4().into_bytes()
}

/// Relies on uuid::Uuid::new_v5 (with from_bytes and into_bytes): a function
/// of the namespace and the name alone, which sets the version to 5 and the
/// RFC 4122 variant.
#[verifier::external_body]
fn name_based_uuid_bytes(namespace: [u8; 16], name: &[u8]) -> (r: [u8; 16])
    ensures
        r@ == name_based_uuid(namespace@, name@),
        uuid_version(r@) == 5,
        is_rfc4122(r@),
{
    uuid::Uuid::new_v5(&uuid::Uuid::from_bytes(namespace), name).into_bytes()
}

/// Relies on uuid::Uuid::from_bytes to build a UUID from its sixteen bytes.
pub assume_specification[ uuid::Uuid::from_bytes ](bytes: [u8; 16]) -> uuid::Uuid;

/// The ASCII text of the nil UUID.
fn nil_uuid_text_bytes() -> (r: Vec<u8>)
    ensures
        r@ == nil_uuid_text(),
{
    let mut r: Vec<u8> = Vec::with_capacity(36);
    let mut i: usize = 0;
    while i < 36
        invariant
            i <= 36,
            r@ == nil_uuid_text().take(i as int),
        decreases 36 - i,
    {
        if i == 8 || i == 13 || i == 18 || i == 23 {
            r.push(45u8);
        } else {
            r.push(48u8);
        }
        assert(r@ =~= nil_uuid_text().take(i + 1));
        i = i + 1;
    }
    assert(r@ =~= nil_uuid_text());
    r
}

/// The bytes of the session uid drawn from `seed`: the name-based UUID of the
/// nil UUID's text in the namespace `seed`.
pub fn session_uid_bytes(seed: [u8; 16]) -> (r: [u8; 16])
    ensures
        r@ == name_based_uuid(seed@, nil_uuid_text()),
        uuid_version(r@) == 5,
        is_rfc4122(r@),
{
    let name = nil_uuid_text_bytes();
    name_based_uuid_bytes(seed, name.as_slice())
}

/// Returns a random uid, unique within the session: a version 5 UUID drawn
/// from a fresh random version 4 UUID.
#[allow(non_snake_case)]
pub fn getUid() -> uuid::Uuid {
    let seed = random_uuid_bytes();
    uuid::Uuid::from_bytes(session_uid_bytes(seed))
}

} // verus!
