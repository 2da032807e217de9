use vstd::prelude::*;

verus! {

/// The sixteen lower-case hexadecimal digits, by value.
pub open spec fn lower_hex_digits() -> Seq<char> {
    seq!['0', '1', '2', '3', '4', '5', '6', '7', '8', '9', 'a', 'b', 'c', 'd', 'e', 'f']
}

/// The value of the hexadecimal digit at position `i` (most significant first)
/// of a 128-bit value written out in 32 digits.
pub open spec fn nibble(v: u128, i: int) -> int {
    (v as int / vstd::arithmetic::power::pow(16, (31 - i) as nat)) % 16
}

/// A 128-bit value as 32 lower-case hexadecimal digits, most significant first,
/// without separators.
pub open spec fn simple_text(v: u128) -> Seq<char> {
    Seq::new(32, |i: int| lower_hex_digits()[nibble(v, i)])
}

/// The version field of a 128-bit UUID value: bits 76 to 79.
pub open spec fn uuid_version(v: u128) -> u128 {
    (v >> 76u128) & 0xfu128
}

/// The two high bits of the variant field of a 128-bit UUID value: bits 62 and
/// 63, `0b10` for the RFC 4122 variant.
pub open spec fn uuid_variant_bits(v: u128) -> u128 {
    (v >> 62u128) & 0x3u128
}

/// Relies on `uuid::Uuid::new_v4` (re-exported by `bevy_utils`): 128 random bits
/// whose version field is then forced to 4 and variant to RFC 4122, read back
/// unchanged as a big-endian value by `as_u128`. It panics only when the
/// system's random source fails.
#[verifier::external_body]
fn random_uuid_value() -> (r: u128)
    ensures
        uuid_version(r) == 4,
        uuid_variant_bits(r) == 2,
{
    bevy_utils::Uuid::new_v4().as_u128()
}

/// Relies on `uuid::Uuid::from_u128` and the `Display` impl of `simple()`:
/// the big-endian value written as 32 lower-case hexadecimal digits.
#[verifier::external_body]
fn uuid_simple_text(v: u128) -> (r: String)
    ensures
        r@ == simple_text(v),
{
    bevy_utils::Uuid::from_u128(v).simple().to_string()
}

/// A token naming one window. Every identity made by [`WindowId::new`] is a
/// random version-4 UUID; the all-zero value is reserved for the primary window.
#[derive(Copy, Clone, Debug, PartialEq, Eq, Hash, Structural)]
pub struct WindowId {
    value: u128,
}

impl WindowId {
    /// The 128-bit value of this identity.
    pub closed spec fn value(self) -> u128 {
        self.value
    }

    /// Whether this is the identity reserved for the primary window.
    pub open spec fn is_primary_spec(self) -> bool {
        self.value() == 0
    }

    /// A fresh identity, drawn at random. It is never the primary identity.
    pub fn new() -> (r: WindowId)
        ensures
            uuid_version(r.value()) == 4,
            uuid_variant_bits(r.value()) == 2,
            !r.is_primary_spec(),
    {
        let v = random_uuid_value();
        proof {
            assert(v != 0) by (bit_vector)
                requires (v >> 76u128) & 0xfu128 == 4u128;
        }
        WindowId { value: v }
    }

    /// The identity reserved for the primary window: the all-zero value.
    pub fn primary() -> (r: WindowId)
        ensures
            r.value() == 0,
            r.is_primary_spec(),
    {
        WindowId { value: 0 }
    }

    /// Whether this identity equals [`WindowId::primary`].
    pub fn is_primary(&self) -> (r: bool)
        ensures
            r == self.is_primary_spec(),
    {
        *self == WindowId::primary()
    }

    /// The identity as 32 lower-case hexadecimal digits.
    pub fn to_simple_string(&self) -> (r: String)
        ensures
            r@ == simple_text(self.value()),
    {
        uuid_simple_text(self.value)
    }
}

impl Default for WindowId {
    /// The primary identity.
    fn default() -> (r: WindowId)
        ensures
            r.is_primary_spec(),
    {
        WindowId::primary()
    }
}

} // verus!
