//! The 128-bit identifier value and its bit fields.

use crate::error::UuidError;
use vstd::prelude::*;
use vstd::std_specs::cmp::PartialEqSpec;
use vstd::std_specs::cmp::PartialEqSpecImpl;

verus! {

/// The version field held in byte 6: its upper four bits.
pub open spec fn version_field(b6: u8) -> u8 {
    b6 / 16
}

/// The variant field held in byte 8, decoded from its leading bits:
/// `0xxxxxxx` is 0, `10xxxxxx` is 2, `110xxxxx` is 6 and `111xxxxx` is 7.
pub open spec fn variant_field(b8: u8) -> u8 {
    if b8 < 0x80 {
        0
    } else if b8 < 0xc0 {
        2
    } else if b8 < 0xe0 {
        6
    } else {
        7
    }
}

/// Byte 6 with its upper four bits replaced by `0100`, the lower four kept.
pub open spec fn with_version_4(b6: u8) -> u8 {
    (0x40 + b6 % 16) as u8
}

/// Byte 8 with its upper two bits replaced by `10`, the lower six kept.
pub open spec fn with_rfc_variant(b8: u8) -> u8 {
    (0x80 + b8 % 64) as u8
}

/// The version of a 16-byte identifier.
pub open spec fn version_of(bytes: Seq<u8>) -> u8 {
    version_field(bytes[6])
}

/// The variant of a 16-byte identifier.
pub open spec fn variant_of(bytes: Seq<u8>) -> u8 {
    variant_field(bytes[8])
}

/// The bytes of the version-4 identifier made from 16 bytes of entropy: bytes 6
/// and 8 get their fixed bits, the other 14 stay as they are.
pub open spec fn v4_bytes(entropy: Seq<u8>) -> Seq<u8> {
    entropy.update(6, with_version_4(entropy[6])).update(8, with_rfc_variant(entropy[8]))
}

/// The masks that read the fields agree with the arithmetic that defines them.
pub proof fn lemma_field_masks(b: u8)
    ensures
        (b & 0xf0) >> 4 == version_field(b),
        b & 0x80 == 0 <==> variant_field(b) == 0,
        b & 0xc0 == 0x80 <==> variant_field(b) == 2,
        b & 0xe0 == 0xc0 <==> variant_field(b) == 6,
        b & 0xe0 == 0xe0 <==> variant_field(b) == 7,
{
    assert((b & 0xf0) >> 4 == b / 16) by (bit_vector);
    assert(b & 0x80 == 0 <==> b < 0x80) by (bit_vector);
    assert(b & 0xc0 == 0x80 <==> 0x80 <= b < 0xc0) by (bit_vector);
    assert(b & 0xe0 == 0xc0 <==> 0xc0 <= b < 0xe0) by (bit_vector);
    assert(b & 0xe0 == 0xe0 <==> 0xe0 <= b) by (bit_vector);
}

/// The masks that write the fields agree with the arithmetic that defines them.
pub proof fn lemma_stamp_masks(b: u8)
    ensures
        (b & 0x0f) | 0x40 == with_version_4(b),
        (b & 0x3f) | 0x80 == with_rfc_variant(b),
{
    assert((b & 0x0f) | 0x40 == 0x40 + b % 16) by (bit_vector);
    assert((b & 0x3f) | 0x80 == 0x80 + b % 64) by (bit_vector);
}

/// A 128-bit identifier, held as 16 bytes in network order. It never changes
/// once made.
#[derive(Debug, Clone, Copy, Hash)]
pub struct Uuid {
    bytes: [u8; 16],
}

impl View for Uuid {
    type V = Seq<u8>;

    /// The 16 bytes, first byte first.
    closed spec fn view(&self) -> Seq<u8> {
        self.bytes@
    }
}

impl Uuid {
    /// The identifier that holds exactly these 16 bytes.
    pub closed spec fn spec_from_bytes(bytes: [u8; 16]) -> Uuid {
        Uuid { bytes }
    }

    /// The stored bytes.
    pub closed spec fn spec_as_bytes(&self) -> &[u8; 16] {
        &self.bytes
    }

    /// Makes a version-4 identifier from the outcome of reading 16 bytes from the
    /// secure random source. A failed read is handed on with its cause.
    pub fn new_v4(entropy: Result<[u8; 16], String>) -> (made: Result<Uuid, UuidError>)
        ensures
            (match entropy {
                Ok(raw) => made is Ok && made->Ok_0@ == v4_bytes(raw@),
                Err(cause) => made == Err::<Uuid, UuidError>(UuidError::EntropyError(cause)),
            }),
            made matches Ok(id) ==> version_of(id@) == 4 && variant_of(id@) == 2,
    {
        match entropy {
            Ok(raw) => {
                let mut random_bytes = raw;
                let b6: u8 = random_bytes[6];
                let b8: u8 = random_bytes[8];
                proof {
                    lemma_stamp_masks(b6);
                    lemma_stamp_masks(b8);
                }
                random_bytes[6] = (b6 & 0x0f) | 0x40;
                random_bytes[8] = (b8 & 0x3f) | 0x80;
                Ok(Uuid { bytes: random_bytes })
            },
            Err(cause) => Err(UuidError::EntropyError(cause)),
        }
    }

    /// Wraps 16 bytes verbatim, whatever they hold.
    #[verifier::when_used_as_spec(spec_from_bytes)]
    pub fn from_bytes(bytes: [u8; 16]) -> (id: Uuid)
        ensures
            id == Uuid::spec_from_bytes(bytes),
            id@ == bytes@,
    {
        Uuid { bytes }
    }

    /// The 16 bytes as stored.
    #[verifier::when_used_as_spec(spec_as_bytes)]
    pub fn as_bytes(&self) -> (bytes: &[u8; 16])
        ensures
            bytes == self.spec_as_bytes(),
            bytes@ == self@,
    {
        &self.bytes
    }

    /// The version field, 0 to 15.
    pub fn version(&self) -> (v: u8)
        ensures
            v == version_of(self@),
            v < 16,
    {
        let b6: u8 = self.bytes[6];
        proof {
            lemma_field_masks(b6);
        }
        (b6 & 0xf0) >> 4
    }

    /// The variant field: 0, 2, 6 or 7.
    pub fn variant(&self) -> (v: u8)
        ensures
            v == variant_of(self@),
            v == 0 || v == 2 || v == 6 || v == 7,
    {
        let b8: u8 = self.bytes[8];
        proof {
            lemma_field_masks(b8);
        }
        if b8 & 0x80 == 0 {
            0
        } else if b8 & 0xc0 == 0x80 {
            2
        } else if b8 & 0xe0 == 0xc0 {
            6
        } else {
            7
        }
    }
}

impl PartialEq for Uuid {
    /// Whether all 16 bytes agree.
    fn eq(&self, other: &Uuid) -> (equal: bool) {
        let mut i: usize = 0;
        while i < 16
            invariant
                i <= 16,
                forall|j: int| 0 <= j < i ==> self.bytes@[j] == other.bytes@[j],
            decreases 16 - i,
        {
            if self.bytes[i] != other.bytes[i] {
                return false;
            }
            i += 1;
        }
        assert(self.bytes@ =~= other.bytes@);
        true
    }
}

impl Eq for Uuid {

}

impl PartialEqSpecImpl for Uuid {
    open spec fn obeys_eq_spec() -> bool {
        true
    }

    /// `==` compares the bytes, and nothing else.
    open spec fn eq_spec(&self, other: &Uuid) -> bool {
        self@ == other@
    }
}

/// Every generated identifier has version 4 and variant 2, whatever the
/// entropy was: the upper four bits of byte 6 are `0100` and the upper two bits
/// of byte 8 are `10`.
pub proof fn law_generated_is_version_4_variant_2(entropy: Seq<u8>)
    requires
        entropy.len() == 16,
    ensures
        version_of(v4_bytes(entropy)) == 4,
        variant_of(v4_bytes(entropy)) == 2,
        v4_bytes(entropy)[6] & 0xf0 == 0x40,
        v4_bytes(entropy)[8] & 0xc0 == 0x80,
{
    let b6 = v4_bytes(entropy)[6];
    let b8 = v4_bytes(entropy)[8];
    assert(b6 & 0xf0 == 0x40) by (bit_vector)
        requires
            0x40 <= b6 < 0x50,
    ;
    assert(b8 & 0xc0 == 0x80) by (bit_vector)
        requires
            0x80 <= b8 < 0xc0,
    ;
}

/// Generation touches nothing but the six fixed bits: 14 bytes stay as they
/// were, byte 6 keeps its lower four bits and byte 8 its lower six.
pub proof fn law_generation_keeps_the_random_bits(entropy: Seq<u8>)
    requires
        entropy.len() == 16,
    ensures
        v4_bytes(entropy).len() == 16,
        forall|i: int| 0 <= i < 16 && i != 6 && i != 8 ==> v4_bytes(entropy)[i] == entropy[i],
        v4_bytes(entropy)[6] % 16 == entropy[6] % 16,
        v4_bytes(entropy)[8] % 64 == entropy[8] % 64,
{
}

/// Whether two reads of entropy agree in the 122 bits that generation keeps.
pub open spec fn same_random_bits(first: Seq<u8>, second: Seq<u8>) -> bool {
    &&& forall|i: int| 0 <= i < 16 && i != 6 && i != 8 ==> first[i] == second[i]
    &&& first[6] % 16 == second[6] % 16
    &&& first[8] % 64 == second[8] % 64
}

/// Two generated identifiers collide only where the entropy did: they are the
/// same bytes exactly when the two reads agree in all 122 random bits.
pub proof fn law_collision_needs_equal_random_bits(first: Seq<u8>, second: Seq<u8>)
    requires
        first.len() == 16,
        second.len() == 16,
    ensures
        v4_bytes(first) == v4_bytes(second) <==> same_random_bits(first, second),
{
    if same_random_bits(first, second) {
        assert(v4_bytes(first) =~= v4_bytes(second));
    }
    if v4_bytes(first) == v4_bytes(second) {
        assert forall|i: int| 0 <= i < 16 && i != 6 && i != 8 implies first[i] == second[i] by {
            assert(v4_bytes(first)[i] == first[i]);
            assert(v4_bytes(second)[i] == second[i]);
        }
        assert(v4_bytes(first)[6] == v4_bytes(second)[6]);
        assert(v4_bytes(first)[8] == v4_bytes(second)[8]);
    }
}

/// An identifier rebuilt from its own bytes is the same identifier, and the
/// bytes read back from a rebuilt identifier are the bytes it was built from.
pub proof fn law_bytes_round_trip(id: Uuid, bytes: [u8; 16])
    ensures
        Uuid::from_bytes(*id.as_bytes()) == id,
        *Uuid::from_bytes(bytes).as_bytes() == bytes,
        Uuid::from_bytes(bytes)@ == bytes@,
        id.as_bytes()@ == id@,
        id@.len() == 16,
{
}

/// Two identifiers are the same exactly when their bytes are: `==` in code,
/// equality of views and equality of values all coincide.
pub proof fn law_equality_is_bytewise(a: Uuid, b: Uuid)
    ensures
        PartialEqSpec::eq_spec(&a, &b) <==> a == b,
        a@ == b@ <==> a == b,
        a == b <==> forall|i: int| 0 <= i < 16 ==> a@[i] == b@[i],
{
    if a@ == b@ {
        assert(a.bytes =~= b.bytes);
    }
    if forall|i: int| 0 <= i < 16 ==> a@[i] == b@[i] {
        assert(a@ =~= b@);
    }
}

} // verus!
