//! Random identifiers, drawn from `uuid`.

use vstd::prelude::*;

verus! {

/// The bits that mark a 128-bit value as a random (version 4) UUID of the
/// RFC variant: the version nibble is 4 and the two variant bits are `10`.
pub open spec fn is_random_uuid(id: u128) -> bool {
    id & 0x0000_0000_0000_F000_C000_0000_0000_0000u128
        == 0x0000_0000_0000_4000_8000_0000_0000_0000u128
}

/// The hyphenated lower-case text of a UUID, as `uuid` prints it.
pub uninterp spec fn uuid_text(id: u128) -> Seq<char>;

/// The length of a hyphenated UUID text.
pub const UUID_TEXT_LEN: usize = 36;

/// Calls `uuid::Uuid::new_v4` and returns the value as a `u128`
/// (`Uuid::as_u128`). The value is random; the contract states only the
/// version and variant bits that `new_v4` sets on every value. It is not
/// proved.
#[verifier::external_body]
pub(crate) fn random_uuid() -> (r: u128)
    ensures
        is_random_uuid(r),
{
    uuid::Uuid::new_v4().as_u128()
}

/// Formats a UUID through its `Display` impl, which prints the hyphenated
/// lower-case form, 36 characters long (`uuid::fmt::Hyphenated::LENGTH`). The
/// contract names the text and states its length; neither is proved.
#[verifier::external_body]
pub(crate) fn hyphenated(id: u128) -> (r: String)
    ensures
        r@ == uuid_text(id),
        r@.len() == UUID_TEXT_LEN,
{
    uuid::Uuid::from_u128(id).to_string()
}

/// Whether a text is the hyphenated form of some random UUID.
pub open spec fn is_random_uuid_text(s: Seq<char>) -> bool {
    &&& s.len() == UUID_TEXT_LEN
    &&& exists|id: u128| is_random_uuid(id) && s == #[trigger] uuid_text(id)
}

/// A fresh random identifier in hyphenated text form.
pub fn new_id_text() -> (r: String)
    ensures
        is_random_uuid_text(r@),
{
    let id: u128 = random_uuid();
    hyphenated(id)
}

} // verus!
