//! The sixteen-byte UUID value type: its byte model and the bit-field
//! codec for the variant and version tags.
use vstd::prelude::*;

verus! {

/// The sixteen bytes of a UUID, in canonical big-endian order.
pub type Bytes = [u8; 16];

/// The layout family of a UUID, read from the top bits of byte 8.
#[derive(Debug, Copy, Clone, PartialEq, Eq, Structural, PartialOrd, Ord)]
pub enum Variant {
    /// Reserved for NCS backward compatibility (`0xx`).
    Ncs,
    /// RFC 4122 conforming UUIDs (`10x`).
    Rfc4122,
    /// Reserved for legacy Microsoft backward compatibility (`110`).
    Microsoft,
    /// Reserved for the future (`111`).
    Reserved,
}

/// The generation method of a UUID, read from the high nibble of byte 6.
#[derive(Debug, Copy, Clone, PartialEq, Eq, Structural, PartialOrd, Ord)]
pub enum Version {
    /// Special case for the nil UUID, and the fallback for nibbles
    /// outside the enumerated set.
    Nil,
    /// Version 1, time based.
    Time,
    /// Version 2, DCE Security.
    Dce,
    /// Version 3, MD5 name based.
    Md5,
    /// Version 4, random.
    Random,
    /// Version 5, SHA-1 name based.
    Sha1,
    /// Version 6, re-ordered time for database locality.
    Database,
    /// Version 7, unix time based.
    UnixTime,
    /// Version 8, experimental or vendor specific format.
    Vendor,
}

/// Universally Unique Identifier, or UUID.
///
/// Sixteen bytes, stored big-endian; ordering and equality are bytewise.
#[derive(Debug, Copy, Clone, PartialEq, Eq, Hash, PartialOrd, Ord)]
pub struct Uuid {
    bytes: Bytes,
}

impl View for Uuid {
    type V = Seq<u8>;

    closed spec fn view(&self) -> Seq<u8> {
        self.bytes@
    }
}

/// The all-zero byte sequence of the nil UUID.
pub open spec fn spec_nil() -> Seq<u8> {
    Seq::new(16, |i: int| 0u8)
}

/// The all-ones byte sequence of the max UUID.
pub open spec fn spec_max() -> Seq<u8> {
    Seq::new(16, |i: int| 0xFFu8)
}

/// Where byte `i` of the mixed-endian form comes from in the canonical
/// form: the four `time_low` bytes are reversed, the two `time_mid` and
/// the two `time_hi_and_version` bytes are swapped pairwise, and the
/// last eight bytes stay in place.
pub open spec fn swap_index(i: int) -> int {
    if i == 0 {
        3
    } else if i == 1 {
        2
    } else if i == 2 {
        1
    } else if i == 3 {
        0
    } else if i == 4 {
        5
    } else if i == 5 {
        4
    } else if i == 6 {
        7
    } else if i == 7 {
        6
    } else {
        i
    }
}

/// The mixed-endian reordering of a sixteen-byte sequence.
pub open spec fn spec_swap_endian(b: Seq<u8>) -> Seq<u8>
    recommends
        b.len() == 16,
{
    Seq::new(16, |i: int| b[swap_index(i)])
}

/// The nibble stored in the version field for each `Version`.
pub open spec fn spec_version_nibble(v: Version) -> u8 {
    match v {
        Version::Nil => 0,
        Version::Time => 1,
        Version::Dce => 2,
        Version::Md5 => 3,
        Version::Random => 4,
        Version::Sha1 => 5,
        Version::Database => 6,
        Version::UnixTime => 7,
        Version::Vendor => 8,
    }
}

/// The `Version` a nibble decodes to; anything outside the enumerated
/// set decodes to `Nil`.
pub open spec fn spec_version_from_nibble(n: u8) -> Version {
    if n == 1 {
        Version::Time
    } else if n == 2 {
        Version::Dce
    } else if n == 3 {
        Version::Md5
    } else if n == 4 {
        Version::Random
    } else if n == 5 {
        Version::Sha1
    } else if n == 6 {
        Version::Database
    } else if n == 7 {
        Version::UnixTime
    } else if n == 8 {
        Version::Vendor
    } else {
        Version::Nil
    }
}

/// The version tag encoded in a sixteen-byte sequence.
pub open spec fn spec_version_of(b: Seq<u8>) -> Version
    recommends
        b.len() == 16,
{
    spec_version_from_nibble(b[6] >> 4)
}

/// The variant tag encoded in a sixteen-byte sequence.
pub open spec fn spec_variant_of(b: Seq<u8>) -> Variant
    recommends
        b.len() == 16,
{
    let x = b[8];
    if x & 0x80 == 0 {
        Variant::Ncs
    } else if x & 0x40 == 0 {
        Variant::Rfc4122
    } else if x & 0x20 == 0 {
        Variant::Microsoft
    } else {
        Variant::Reserved
    }
}

/// Byte 6 after the version nibble is written over its high four bits.
pub open spec fn spec_version_byte(old6: u8, v: Version) -> u8 {
    (old6 & 0x0F) | (spec_version_nibble(v) << 4)
}

/// The sequence after the version tag is stamped: only byte 6 changes,
/// and only its high nibble.
pub open spec fn spec_set_version(b: Seq<u8>, v: Version) -> Seq<u8>
    recommends
        b.len() == 16,
{
    b.update(6, spec_version_byte(b[6], v))
}

/// Byte 8 after the variant tag is written: only the bits of the tag's
/// defining prefix change.
pub open spec fn spec_variant_byte(old8: u8, v: Variant) -> u8 {
    match v {
        Variant::Ncs => old8 & 0x7F,
        Variant::Rfc4122 => (old8 & 0x3F) | 0x80,
        Variant::Microsoft => (old8 & 0x1F) | 0xC0,
        Variant::Reserved => old8 | 0xE0,
    }
}

/// The sequence after the variant tag is stamped: only byte 8 changes.
pub open spec fn spec_set_variant(b: Seq<u8>, v: Variant) -> Seq<u8>
    recommends
        b.len() == 16,
{
    b.update(8, spec_variant_byte(b[8], v))
}

/// The bytes of the predefined DNS namespace.
pub open spec fn spec_namespace_dns() -> Seq<u8> {
    seq![107u8, 167, 184, 16, 157, 173, 17, 209, 128, 180, 0, 192, 79, 212, 48, 200]
}

/// The bytes of the predefined URL namespace.
pub open spec fn spec_namespace_url() -> Seq<u8> {
    seq![107u8, 167, 184, 17, 157, 173, 17, 209, 128, 180, 0, 192, 79, 212, 48, 200]
}

/// The bytes of the predefined OID namespace.
pub open spec fn spec_namespace_oid() -> Seq<u8> {
    seq![107u8, 167, 184, 18, 157, 173, 17, 209, 128, 180, 0, 192, 79, 212, 48, 200]
}

/// The bytes of the predefined X500 namespace.
pub open spec fn spec_namespace_x500() -> Seq<u8> {
    seq![107u8, 167, 184, 20, 157, 173, 17, 209, 128, 180, 0, 192, 79, 212, 48, 200]
}

/// The predefined DNS namespace, 6ba7b810-9dad-11d1-80b4-00c04fd430c8.
pub fn namespace_dns() -> (r: Uuid)
    ensures
        r@ == spec_namespace_dns(),
{
    let r = Uuid {
        bytes: [107, 167, 184, 16, 157, 173, 17, 209, 128, 180, 0, 192, 79, 212, 48, 200],
    };
    proof {
        assert(r@ =~= spec_namespace_dns());
    }
    r
}

/// The predefined URL namespace, 6ba7b811-9dad-11d1-80b4-00c04fd430c8.
pub fn namespace_url() -> (r: Uuid)
    ensures
        r@ == spec_namespace_url(),
{
    let r = Uuid {
        bytes: [107, 167, 184, 17, 157, 173, 17, 209, 128, 180, 0, 192, 79, 212, 48, 200],
    };
    proof {
        assert(r@ =~= spec_namespace_url());
    }
    r
}

/// The predefined OID namespace, 6ba7b812-9dad-11d1-80b4-00c04fd430c8.
pub fn namespace_oid() -> (r: Uuid)
    ensures
        r@ == spec_namespace_oid(),
{
    let r = Uuid {
        bytes: [107, 167, 184, 18, 157, 173, 17, 209, 128, 180, 0, 192, 79, 212, 48, 200],
    };
    proof {
        assert(r@ =~= spec_namespace_oid());
    }
    r
}

/// The predefined X500 namespace, 6ba7b814-9dad-11d1-80b4-00c04fd430c8.
pub fn namespace_x500() -> (r: Uuid)
    ensures
        r@ == spec_namespace_x500(),
{
    let r = Uuid {
        bytes: [107, 167, 184, 20, 157, 173, 17, 209, 128, 180, 0, 192, 79, 212, 48, 200],
    };
    proof {
        assert(r@ =~= spec_namespace_x500());
    }
    r
}

impl Uuid {
    /// Write the version tag into the high nibble of byte 6, leaving
    /// the low nibble and every other byte untouched.
    pub(crate) fn set_version(self, ver: Version) -> (r: Self)
        ensures
            r@ == spec_set_version(self@, ver),
    {
        let mut bytes = self.bytes;
        bytes[6] = (bytes[6] & 0x0F) | (version_nibble(ver) << 4);
        let r = Uuid { bytes };
        proof {
            assert(r@ =~= spec_set_version(self@, ver));
        }
        r
    }

    /// Write the variant tag into byte 8, touching only the bits that
    /// belong to the tag's defining prefix.
    pub(crate) fn set_variant(self, ver: Variant) -> (r: Self)
        ensures
            r@ == spec_set_variant(self@, ver),
    {
        let mut bytes = self.bytes;
        let byte = bytes[8];
        bytes[8] = match ver {
            Variant::Ncs => byte & 0x7F,
            Variant::Rfc4122 => (byte & 0x3F) | 0x80,
            Variant::Microsoft => (byte & 0x1F) | 0xC0,
            Variant::Reserved => byte | 0xE0,
        };
        let r = Uuid { bytes };
        proof {
            assert(r@ =~= spec_set_variant(self@, ver));
        }
        r
    }

    /// Swap the byte order between big-endian and mixed-endian.
    pub(crate) fn swap_endian(self) -> (r: Self)
        ensures
            r@ == spec_swap_endian(self@),
    {
        let mut bytes = self.bytes;
        bytes[0] = self.bytes[3];
        bytes[1] = self.bytes[2];
        bytes[2] = self.bytes[1];
        bytes[3] = self.bytes[0];
        bytes[4] = self.bytes[5];
        bytes[5] = self.bytes[4];
        bytes[6] = self.bytes[7];
        bytes[7] = self.bytes[6];
        let r = Uuid { bytes };
        proof {
            assert(r@ =~= spec_swap_endian(self@));
        }
        r
    }

    /// The special nil UUID, where all bits are set to zero.
    pub fn nil() -> (r: Self)
        ensures
            r@ == spec_nil(),
    {
        let r = Uuid { bytes: [0; 16] };
        proof {
            assert(r@ =~= spec_nil());
        }
        r
    }

    /// The special max UUID, where all bits are set to one.
    pub fn max() -> (r: Self)
        ensures
            r@ == spec_max(),
    {
        let r = Uuid { bytes: [0xFF; 16] };
        proof {
            assert(r@ =~= spec_max());
        }
        r
    }

    /// Create a UUID from bytes.
    pub fn from_bytes(bytes: Bytes) -> (r: Self)
        ensures
            r@ == bytes@,
    {
        Self { bytes }
    }

    /// Return the UUID as its bytes.
    pub fn to_bytes(self) -> (r: Bytes)
        ensures
            r@ == self@,
    {
        self.bytes
    }

    /// Create a UUID from mixed-endian bytes; the result is stored
    /// big-endian. The `time_low`, `time_mid` and `time_hi_and_version`
    /// fields of the input are expected little-endian; the rest are
    /// taken as they are.
    pub fn from_bytes_me(bytes: Bytes) -> (r: Self)
        ensures
            r@ == spec_swap_endian(bytes@),
    {
        Self { bytes }.swap_endian()
    }

    /// Return the UUID as mixed-endian bytes.
    pub fn to_bytes_me(self) -> (r: Bytes)
        ensures
            r@ == spec_swap_endian(self@),
    {
        self.swap_endian().to_bytes()
    }

    /// Returns true if the UUID is nil.
    pub fn is_nil(&self) -> (r: bool)
        ensures
            r <==> self@ == spec_nil(),
    {
        let mut i: usize = 0;
        while i < 16
            invariant
                i <= 16,
                forall|j: int| 0 <= j < i ==> self@[j] == 0u8,
            decreases 16 - i,
        {
            if self.bytes[i] != 0 {
                proof {
                    assert(self@[i as int] != 0);
                    assert(self@ != spec_nil()) by {
                        assert(spec_nil()[i as int] == 0u8);
                    }
                }
                return false;
            }
            i = i + 1;
        }
        proof {
            assert(self@ =~= spec_nil());
        }
        true
    }

    /// The UUID variant, decoded from the top bits of byte 8. Total:
    /// every byte pattern decodes to some tag.
    pub fn variant(&self) -> (r: Variant)
        ensures
            r == spec_variant_of(self@),
    {
        let x = self.bytes[8];
        if x & 0x80 == 0 {
            Variant::Ncs
        } else if x & 0x40 == 0 {
            Variant::Rfc4122
        } else if x & 0x20 == 0 {
            Variant::Microsoft
        } else {
            Variant::Reserved
        }
    }

    /// The UUID version, decoded from the high nibble of byte 6. A
    /// nibble outside the enumerated set decodes to `Version::Nil`
    /// rather than failing.
    pub fn version(&self) -> (r: Version)
        ensures
            r == spec_version_of(self@),
    {
        let n = self.bytes[6] >> 4;
        if n == 1 {
            Version::Time
        } else if n == 2 {
            Version::Dce
        } else if n == 3 {
            Version::Md5
        } else if n == 4 {
            Version::Random
        } else if n == 5 {
            Version::Sha1
        } else if n == 6 {
            Version::Database
        } else if n == 7 {
            Version::UnixTime
        } else if n == 8 {
            Version::Vendor
        } else {
            Version::Nil
        }
    }
}

impl Uuid {
    /// The 60-bit UUID timestamp, reassembled from the split
    /// `time_hi`, `time_mid` and `time_low` fields into one integer
    /// whose top four bits are zero. Defined on any value; it is only
    /// meaningful for time-based versions.
    pub fn timestamp(&self) -> (r: u64)
        ensures
            r == spec_timestamp(self@),
            r < 0x1000000000000000u64,
    {
        let b = &self.bytes;
        let r = (((b[6] & 0x0F) as u64) << 56) | ((b[7] as u64) << 48) | ((b[4] as u64) << 40)
            | ((b[5] as u64) << 32) | ((b[0] as u64) << 24) | ((b[1] as u64) << 16) | ((b[2]
            as u64) << 8) | (b[3] as u64);
        proof {
            lemma_timestamp_bound(b@[6], b@[7], b@[4], b@[5], b@[0], b@[1], b@[2], b@[3]);
        }
        r
    }

    /// The 14-bit UUID clock sequence, from byte 8 with the two
    /// variant bits cleared and byte 9. Defined on any value; it is
    /// only meaningful for time-based versions.
    pub fn clock_sequence(&self) -> (r: u16)
        ensures
            r == spec_clock_sequence(self@),
            r < 0x4000u16,
    {
        let b = &self.bytes;
        let r = (((b[8] & 0x3F) as u16) << 8) | (b[9] as u16);
        proof {
            lemma_clock_sequence_bound(b@[8], b@[9]);
        }
        r
    }
}

/// The 60-bit timestamp encoded in a sixteen-byte sequence.
pub open spec fn spec_timestamp(b: Seq<u8>) -> u64
    recommends
        b.len() == 16,
{
    (((b[6] & 0x0F) as u64) << 56) | ((b[7] as u64) << 48) | ((b[4] as u64) << 40) | ((b[5]
        as u64) << 32) | ((b[0] as u64) << 24) | ((b[1] as u64) << 16) | ((b[2] as u64) << 8) | (
    b[3] as u64)
}

/// The 14-bit clock sequence encoded in a sixteen-byte sequence.
pub open spec fn spec_clock_sequence(b: Seq<u8>) -> u16
    recommends
        b.len() == 16,
{
    (((b[8] & 0x3F) as u16) << 8) | (b[9] as u16)
}

proof fn lemma_timestamp_bound(b6: u8, b7: u8, b4: u8, b5: u8, b0: u8, b1: u8, b2: u8, b3: u8)
    by (bit_vector)
    ensures
        (((b6 & 0x0F) as u64) << 56) | ((b7 as u64) << 48) | ((b4 as u64) << 40) | ((b5
            as u64) << 32) | ((b0 as u64) << 24) | ((b1 as u64) << 16) | ((b2 as u64) << 8) | (
        b3 as u64) < 0x1000000000000000u64,
{
}

proof fn lemma_clock_sequence_bound(b8: u8, b9: u8)
    by (bit_vector)
    ensures
        (((b8 & 0x3F) as u16) << 8) | (b9 as u16) < 0x4000u16,
{
}

proof fn lemma_version_nibble_reads_back(x: u8, n: u8)
    by (bit_vector)
    requires
        n < 16,
    ensures
        ((x & 0x0F) | (n << 4)) >> 4 == n,
{
}

proof fn lemma_variant_bits(x: u8)
    by (bit_vector)
    ensures
        (x & 0x7F) & 0x80 == 0,
        ((x & 0x3F) | 0x80) & 0x80 != 0,
        ((x & 0x3F) | 0x80) & 0x40 == 0,
        ((x & 0x1F) | 0xC0) & 0x80 != 0,
        ((x & 0x1F) | 0xC0) & 0x40 != 0,
        ((x & 0x1F) | 0xC0) & 0x20 == 0,
        (x | 0xE0) & 0x80 != 0,
        (x | 0xE0) & 0x40 != 0,
        (x | 0xE0) & 0x20 != 0,
{
}

/// Stamping a version tag is read back exactly, and touches neither
/// the variant byte nor any byte but byte 6.
pub proof fn lemma_set_version_tag(b: Seq<u8>, v: Version)
    requires
        b.len() == 16,
    ensures
        spec_version_of(spec_set_version(b, v)) == v,
        spec_variant_of(spec_set_version(b, v)) == spec_variant_of(b),
        forall|i: int| 0 <= i < 16 && i != 6 ==> spec_set_version(b, v)[i] == b[i],
{
    lemma_version_nibble_reads_back(b[6], spec_version_nibble(v));
}

/// Stamping a variant tag is read back exactly, and touches neither
/// the version byte nor any byte but byte 8.
pub proof fn lemma_set_variant_tag(b: Seq<u8>, v: Variant)
    requires
        b.len() == 16,
    ensures
        spec_variant_of(spec_set_variant(b, v)) == v,
        spec_version_of(spec_set_variant(b, v)) == spec_version_of(b),
        forall|i: int| 0 <= i < 16 && i != 8 ==> spec_set_variant(b, v)[i] == b[i],
{
    lemma_variant_bits(b[8]);
}

/// Swapping the byte order twice returns the original value: the
/// mixed-endian conversion is its own inverse.
pub proof fn lemma_swap_endian_involution(b: Seq<u8>)
    requires
        b.len() == 16,
    ensures
        spec_swap_endian(spec_swap_endian(b)) == b,
{
    assert(spec_swap_endian(spec_swap_endian(b)) =~= b);
}

/// A version nibble outside the enumerated set decodes to `Nil`; the
/// decoder never fails.
pub proof fn lemma_unknown_version_is_nil(b: Seq<u8>)
    requires
        b.len() == 16,
        b[6] >> 4 > 8,
    ensures
        spec_version_of(b) == Version::Nil,
{
}

/// The nil UUID reports version `Nil`.
pub proof fn lemma_nil_version()
    ensures
        spec_version_of(spec_nil()) == Version::Nil,
{
    assert(spec_nil()[6] == 0u8);
    assert(0u8 >> 4 == 0u8) by (bit_vector);
}

impl Default for Uuid {
    /// The default UUID is the nil UUID.
    fn default() -> (r: Self)
        ensures
            r@ == spec_nil(),
    {
        Uuid::nil()
    }
}

/// The nibble stored for a version tag, as an executable function.
pub(crate) fn version_nibble(v: Version) -> (r: u8)
    ensures
        r == spec_version_nibble(v),
{
    match v {
        Version::Nil => 0,
        Version::Time => 1,
        Version::Dce => 2,
        Version::Md5 => 3,
        Version::Random => 4,
        Version::Sha1 => 5,
        Version::Database => 6,
        Version::UnixTime => 7,
        Version::Vendor => 8,
    }
}

} // verus!
