//! The generators: random, name-based (MD5 and SHA-1), time-based and
//! vendor UUIDs, and the seedable random byte source they draw from.
use vstd::prelude::*;

use crate::model::Bytes;
use crate::model::Uuid;
use crate::model::Variant;
use crate::model::Version;
use crate::model::spec_clock_sequence;
use crate::model::spec_set_variant;
use crate::model::spec_set_version;
use crate::model::spec_timestamp;
use crate::model::spec_variant_of;
use crate::model::spec_version_of;
use crate::model::lemma_set_variant_tag;
use crate::model::lemma_set_version_tag;
use md5::Digest;
use md5::Md5;
use rand_chacha::ChaCha20Rng;
use rand_chacha::rand_core::OsRng;
use rand_chacha::rand_core::RngCore;
use rand_chacha::rand_core::SeedableRng;
use sha1::Sha1;

verus! {

#[verifier::external_type_specification]
#[verifier::external_body]
pub struct ExChaCha20Rng(ChaCha20Rng);

/// A seedable CSPRNG suitable for generating UUIDs.
pub struct Rng {
    inner: ChaCha20Rng,
}

/// A fresh 32-byte seed from the operating system.
///
/// Relies on rand_core's `OsRng::fill_bytes`, which fills the buffer
/// from the OS secure randomness facility (and, inside rand_core,
/// aborts the process if that facility fails).
#[verifier::external_body]
fn os_random_seed() -> [u8; 32] {
    let mut seed = [0u8; 32];
    OsRng.fill_bytes(&mut seed);
    seed
}

impl Rng {
    /// Create a new Rng seeded from the operating system.
    pub fn new() -> Self {
        Rng::from_seed(os_random_seed())
    }

    /// Create a new Rng from a provided seed.
    ///
    /// Relies on rand_chacha's `ChaCha20Rng::from_seed`, which builds
    /// the generator deterministically from the 32-byte seed.
    #[verifier::external_body]
    pub fn from_seed(seed: [u8; 32]) -> Self {
        Rng { inner: ChaCha20Rng::from_seed(seed) }
    }

    /// The next sixteen bytes of the stream.
    ///
    /// Relies on rand_chacha's `ChaCha20Rng::fill_bytes`, which fills
    /// the buffer with the next bytes of the keystream and never
    /// fails. Nothing is promised of the values.
    #[verifier::external_body]
    fn fill_bytes(&mut self) -> [u8; 16] {
        let mut bytes = [0u8; 16];
        self.inner.fill_bytes(&mut bytes);
        bytes
    }
}

/// The sixteen MD5 digest bytes of a byte sequence, as the md-5 crate
/// computes them: a fixed function of the input alone.
pub uninterp spec fn md5_of(data: Seq<u8>) -> Seq<u8>;

/// The twenty SHA-1 digest bytes of a byte sequence, as the sha1
/// crate computes them: a fixed function of the input alone.
pub uninterp spec fn sha1_of(data: Seq<u8>) -> Seq<u8>;

/// The MD5 digest of `data`.
///
/// Relies on the md-5 crate's `Digest` implementation: `finalize`
/// returns the 16-byte MD5 digest of all bytes fed to `update`, a
/// deterministic function of them alone.
#[verifier::external_body]
fn md5_digest(data: &[u8]) -> (r: [u8; 16])
    ensures
        r@ == md5_of(data@),
{
    let mut hasher = Md5::new();
    hasher.update(data);
    hasher.finalize().into()
}

/// The SHA-1 digest of `data`.
///
/// Relies on the sha1 crate's `Digest` implementation: `finalize`
/// returns the 20-byte SHA-1 digest of all bytes fed to `update`, a
/// deterministic function of them alone.
#[verifier::external_body]
fn sha1_digest(data: &[u8]) -> (r: [u8; 20])
    ensures
        r@ == sha1_of(data@),
{
    let mut hasher = Sha1::new();
    hasher.update(data);
    hasher.finalize().into()
}

/// The value a version 3 generation returns: the MD5 digest of the
/// namespace bytes followed by the name bytes, with the version and
/// variant stamped in the order the generator stamps them.
pub open spec fn spec_v3(ns: Seq<u8>, name: Seq<u8>) -> Seq<u8> {
    spec_set_variant(spec_set_version(md5_of(ns + name), Version::Md5), Variant::Rfc4122)
}

/// The value a version 5 generation returns: the first sixteen SHA-1
/// digest bytes of the namespace bytes followed by the name bytes,
/// with the version and variant stamped.
pub open spec fn spec_v5(ns: Seq<u8>, name: Seq<u8>) -> Seq<u8> {
    spec_set_variant(
        spec_set_version(sha1_of(ns + name).subrange(0, 16), Version::Sha1),
        Variant::Rfc4122,
    )
}

/// The sixteen bytes a version 1 generation packs from a 60-bit
/// timestamp, a 14-bit counter and a node: the timestamp's low 32
/// bits, then its middle 16, then its top 12 merged with the version
/// nibble; the counter's top 6 bits merged with the variant bits,
/// then its low 8; then the node verbatim. The top 4 timestamp bits
/// and top 2 counter bits are discarded.
pub open spec fn spec_v1(t: u64, c: u16, node: Seq<u8>) -> Seq<u8>
    recommends
        node.len() == 6,
{
    seq![
        (t >> 24) as u8,
        (t >> 16) as u8,
        (t >> 8) as u8,
        t as u8,
        (t >> 40) as u8,
        (t >> 32) as u8,
        (((t >> 56) as u8) & 0x0F) | 0x10,
        (t >> 48) as u8,
        (((c >> 8) as u8) & 0x3F) | 0x80,
        c as u8,
        node[0],
        node[1],
        node[2],
        node[3],
        node[4],
        node[5],
    ]
}

/// The namespace bytes followed by the name bytes: the input of the
/// name-based hash.
fn name_data(namespace: Uuid, name: &[u8]) -> (r: Vec<u8>)
    ensures
        r@ == namespace@ + name@,
{
    let ns = namespace.to_bytes();
    let mut data: Vec<u8> = Vec::new();
    let mut i: usize = 0;
    while i < 16
        invariant
            i <= 16,
            ns@ == namespace@,
            data@.len() == i,
            forall|k: int| 0 <= k < i ==> data@[k] == ns@[k],
        decreases 16 - i,
    {
        data.push(ns[i]);
        i = i + 1;
    }
    let n = name.len();
    let mut j: usize = 0;
    while j < n
        invariant
            j <= n,
            n == name@.len(),
            data@.len() == 16 + j,
            forall|k: int| 0 <= k < 16 ==> data@[k] == namespace@[k],
            forall|k: int| 0 <= k < j ==> data@[16 + k] == name@[k],
        decreases n - j,
    {
        data.push(name[j]);
        j = j + 1;
    }
    proof {
        assert(data@ =~= namespace@ + name@);
    }
    data
}

proof fn lemma_v1_version_byte(t: u64)
    by (bit_vector)
    ensures
        ((((t >> 56) as u8) & 0x0F) | 0x10) >> 4 == 1u8,
{
}

proof fn lemma_v1_variant_byte(c: u16)
    by (bit_vector)
    ensures
        (((((c >> 8) as u8) & 0x3F) | 0x80) & 0x80) != 0u8,
        (((((c >> 8) as u8) & 0x3F) | 0x80) & 0x40) == 0u8,
{
}

proof fn lemma_v1_timestamp_reads_back(t: u64)
    by (bit_vector)
    ensures
        ((((((t >> 56) as u8) & 0x0F) | 0x10) & 0x0F) as u64) << 56 | (((t >> 48) as u8)
            as u64) << 48 | (((t >> 40) as u8) as u64) << 40 | (((t >> 32) as u8) as u64) << 32 | ((
        (t >> 24) as u8) as u64) << 24 | (((t >> 16) as u8) as u64) << 16 | (((t >> 8) as u8)
            as u64) << 8 | ((t as u8) as u64) == t & 0x0FFFFFFFFFFFFFFFu64,
{
}

proof fn lemma_v1_counter_reads_back(c: u16)
    by (bit_vector)
    ensures
        ((((((c >> 8) as u8) & 0x3F) | 0x80) & 0x3F) as u16) << 8 | ((c as u8) as u16) == c
            & 0x3FFFu16,
{
}

impl Uuid {
    /// Create a new version 4 (random) UUID from a fresh
    /// system-seeded source. Prefer `Uuid::new_v4_rng` when
    /// generating many.
    pub fn new_v4() -> (r: Self)
        ensures
            spec_version_of(r@) == Version::Random,
            spec_variant_of(r@) == Variant::Rfc4122,
            exists|b: Seq<u8>|
                b.len() == 16 && r@ == spec_set_version(
                    spec_set_variant(b, Variant::Rfc4122),
                    Version::Random,
                ),
    {
        let mut rng = Rng::new();
        Uuid::new_v4_rng(&mut rng)
    }

    /// Create a new version 4 (random) UUID from the provided `Rng`:
    /// sixteen bytes of its stream with the variant and version
    /// stamped over them.
    pub fn new_v4_rng(rng: &mut Rng) -> (r: Self)
        ensures
            spec_version_of(r@) == Version::Random,
            spec_variant_of(r@) == Variant::Rfc4122,
            exists|b: Seq<u8>|
                b.len() == 16 && r@ == spec_set_version(
                    spec_set_variant(b, Variant::Rfc4122),
                    Version::Random,
                ),
    {
        let bytes = rng.fill_bytes();
        let r = Uuid::from_bytes(bytes).set_variant(Variant::Rfc4122).set_version(Version::Random);
        proof {
            lemma_set_variant_tag(bytes@, Variant::Rfc4122);
            lemma_set_version_tag(spec_set_variant(bytes@, Variant::Rfc4122), Version::Random);
            assert(bytes@.len() == 16 && r@ == spec_set_version(
                spec_set_variant(bytes@, Variant::Rfc4122),
                Version::Random,
            ));
        }
        r
    }

    /// Create a new version 3 UUID from the provided namespace and
    /// name: deterministic in both.
    pub fn new_v3(namespace: Uuid, name: &[u8]) -> (r: Self)
        ensures
            r@ == spec_v3(namespace@, name@),
            spec_version_of(r@) == Version::Md5,
            spec_variant_of(r@) == Variant::Rfc4122,
    {
        let data = name_data(namespace, name);
        let digest = md5_digest(data.as_slice());
        let r = Uuid::from_bytes(digest).set_version(Version::Md5).set_variant(Variant::Rfc4122);
        proof {
            lemma_set_version_tag(md5_of(namespace@ + name@), Version::Md5);
            lemma_set_variant_tag(
                spec_set_version(md5_of(namespace@ + name@), Version::Md5),
                Variant::Rfc4122,
            );
        }
        r
    }

    /// Create a new version 5 UUID from the provided namespace and
    /// name: deterministic in both.
    pub fn new_v5(namespace: Uuid, name: &[u8]) -> (r: Self)
        ensures
            r@ == spec_v5(namespace@, name@),
            spec_version_of(r@) == Version::Sha1,
            spec_variant_of(r@) == Variant::Rfc4122,
    {
        let data = name_data(namespace, name);
        let digest = sha1_digest(data.as_slice());
        let mut head: Bytes = [0u8; 16];
        let mut i: usize = 0;
        while i < 16
            invariant
                i <= 16,
                head@.len() == 16,
                digest@ == sha1_of(namespace@ + name@),
                digest@.len() == 20,
                forall|k: int| 0 <= k < i ==> head@[k] == digest@[k],
            decreases 16 - i,
        {
            head[i] = digest[i];
            i = i + 1;
        }
        proof {
            assert(head@ =~= sha1_of(namespace@ + name@).subrange(0, 16));
        }
        let r = Uuid::from_bytes(head).set_version(Version::Sha1).set_variant(Variant::Rfc4122);
        proof {
            lemma_set_version_tag(sha1_of(namespace@ + name@).subrange(0, 16), Version::Sha1);
            lemma_set_variant_tag(
                spec_set_version(sha1_of(namespace@ + name@).subrange(0, 16), Version::Sha1),
                Variant::Rfc4122,
            );
        }
        r
    }

    /// Create a new version 1 UUID from the provided 60-bit
    /// timestamp, 14-bit counter and node. The four high timestamp
    /// bits and two high counter bits are silently discarded, and the
    /// packed fields read back exactly.
    pub fn new_v1(timestamp: u64, counter: u16, node: [u8; 6]) -> (r: Self)
        ensures
            r@ == spec_v1(timestamp, counter, node@),
            spec_version_of(r@) == Version::Time,
            spec_variant_of(r@) == Variant::Rfc4122,
            spec_timestamp(r@) == timestamp & 0x0FFFFFFFFFFFFFFFu64,
            spec_clock_sequence(r@) == counter & 0x3FFFu16,
    {
        let bytes: Bytes = [
            (timestamp >> 24) as u8,
            (timestamp >> 16) as u8,
            (timestamp >> 8) as u8,
            timestamp as u8,
            (timestamp >> 40) as u8,
            (timestamp >> 32) as u8,
            (((timestamp >> 56) as u8) & 0x0F) | 0x10,
            (timestamp >> 48) as u8,
            (((counter >> 8) as u8) & 0x3F) | 0x80,
            counter as u8,
            node[0],
            node[1],
            node[2],
            node[3],
            node[4],
            node[5],
        ];
        let r = Uuid::from_bytes(bytes);
        proof {
            assert(r@ =~= spec_v1(timestamp, counter, node@));
            lemma_v1_version_byte(timestamp);
            lemma_v1_variant_byte(counter);
            lemma_v1_timestamp_reads_back(timestamp);
            lemma_v1_counter_reads_back(counter);
        }
        r
    }

    /// Create a new version 8 (vendor) UUID: the caller's sixteen
    /// bytes with only the variant and version bits stamped.
    pub fn new_v8(bytes: Bytes) -> (r: Self)
        ensures
            r@ == spec_set_version(spec_set_variant(bytes@, Variant::Rfc4122), Version::Vendor),
            spec_version_of(r@) == Version::Vendor,
            spec_variant_of(r@) == Variant::Rfc4122,
    {
        let r = Uuid::from_bytes(bytes).set_variant(Variant::Rfc4122).set_version(Version::Vendor);
        proof {
            lemma_set_variant_tag(bytes@, Variant::Rfc4122);
            lemma_set_version_tag(spec_set_variant(bytes@, Variant::Rfc4122), Version::Vendor);
        }
        r
    }
}

/// Name-based generation is deterministic: equal namespaces and equal
/// names give equal values, under either hash scheme.
pub proof fn lemma_name_based_deterministic(
    ns1: Seq<u8>,
    name1: Seq<u8>,
    ns2: Seq<u8>,
    name2: Seq<u8>,
)
    requires
        ns1 == ns2,
        name1 == name2,
    ensures
        spec_v3(ns1, name1) == spec_v3(ns2, name2),
        spec_v5(ns1, name1) == spec_v5(ns2, name2),
{
}

} // verus!
