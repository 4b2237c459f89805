use vstd::prelude::*;

verus! {

/// Identifier of a stored entity: the 128-bit value of a UUID, most significant
/// byte first.
#[derive(Clone, Copy, Debug, PartialEq, Eq, Hash, Structural)]
pub struct EntityId {
    pub value: u128,
}

/// The version nibble and the variant bits of a UUID.
pub const VERSION_VARIANT_MASK: u128 = 0xF000_C000_0000_0000_0000;

/// Version 4, variant RFC 4122, in the bits of `VERSION_VARIANT_MASK`.
pub const RANDOM_VERSION_BITS: u128 = 0x4000_8000_0000_0000_0000;

/// Relies on uuid's `Uuid::new_v4`, which draws 128 random bits and then sets
/// the version nibble to 4 and the variant bits to `10`; `as_u128` reads the
/// bytes back most significant first.
#[verifier::external_body]
fn random_uuid_value() -> (r: u128)
    ensures
        r & VERSION_VARIANT_MASK == RANDOM_VERSION_BITS,
{
    uuid::Uuid::new_v4().as_u128()
}

impl EntityId {
    /// The nil identifier, whose bits are all zero.
    pub fn nil() -> (r: EntityId)
        ensures
            r.value == 0,
    {
        EntityId { value: 0 }
    }

    pub fn from_u128(value: u128) -> (r: EntityId)
        ensures
            r.value == value,
    {
        EntityId { value }
    }

    pub fn as_u128(&self) -> (r: u128)
        ensures
            r == self.value,
    {
        self.value
    }

    pub fn is_nil(&self) -> (r: bool)
        ensures
            r == (self.value == 0),
    {
        self.value == 0
    }

    /// A fresh random (version 4) identifier; it is never nil.
    pub fn generate() -> (r: EntityId)
        ensures
            r.value != 0,
            r.value & VERSION_VARIANT_MASK == RANDOM_VERSION_BITS,
    {
        let value = random_uuid_value();
        assert(value & 0xF000_C000_0000_0000_0000u128 == 0x4000_8000_0000_0000_0000u128 ==> value
            != 0) by (bit_vector);
        EntityId { value }
    }
}

} // verus!
