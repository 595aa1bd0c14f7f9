//! Identifiers of a virtual machine, from the uuid crate. An identifier is
//! held as its 128 bits, most significant first; zero is the nil uuid.
use vstd::prelude::*;

verus! {

/// The hyphenated lower-case text of the uuid with these bits.
pub uninterp spec fn uuid_text_of(bits: u128) -> Seq<char>;

/// Relies on uuid::Uuid::from_u128 and uuid's Display impl: the hyphenated
/// text of the uuid with these bits.
#[verifier::external_body]
pub(crate) fn uuid_text(bits: u128) -> (r: String)
    ensures
        r@ == uuid_text_of(bits),
{
    uuid::Uuid::from_u128(bits).to_string()
}

/// The version and variant bits of a uuid.
pub open spec fn version_variant_bits(bits: u128) -> u128 {
    bits & 0xf000_c000_0000_0000_0000u128
}

/// Relies on uuid::Uuid::new_v4 and Uuid::as_u128: random bits, with the
/// version set to 4 (random) and the variant to RFC 4122.
#[verifier::external_body]
pub(crate) fn random_uuid() -> (r: u128)
    ensures
        version_variant_bits(r) == 0x4000_8000_0000_0000_0000u128,
{
    uuid::Uuid::new_v4().as_u128()
}

/// A random uuid is never nil.
pub proof fn lemma_random_uuid_not_nil(bits: u128)
    requires
        version_variant_bits(bits) == 0x4000_8000_0000_0000_0000u128,
    ensures
        bits != 0,
{
    assert(bits & 0xf000_c000_0000_0000_0000u128 == 0x4000_8000_0000_0000_0000u128 ==> bits != 0)
        by (bit_vector);
}

} // verus!
