use nuuid::ParseUuidError;
use nuuid::Rng;
use nuuid::Uuid;
use nuuid::Variant;
use nuuid::Version;
use nuuid::namespace_dns;
use std::str::FromStr;

const UUID_NIL: &str = "00000000-0000-0000-0000-000000000000";
const UUID_V4: &str = "662aa7c7-7598-4d56-8bcc-a72c30f998a2";
const UUID_V4_SIMPLE: &str = "662aa7c775984d568bcca72c30f998a2";
const UUID_V4_BRACED: &str = "{662aa7c7-7598-4d56-8bcc-a72c30f998a2}";
const UUID_V4_URN: &str = "urn:uuid:662aa7c7-7598-4d56-8bcc-a72c30f998a2";
const UUID_V4_URN_UPPER: &str = "urn:uuid:662AA7C7-7598-4D56-8BCC-A72C30F998A2";
const RAW: [u8; 16] = [
    102, 42, 167, 199, 117, 152, 77, 86, 139, 204, 167, 44, 48, 249, 152, 162,
];

fn name(fun: fn(Uuid, &[u8]) -> Uuid, ver: Version) {
    let namespace = Uuid::new_v4();
    let namespace2 = Uuid::new_v4();
    let uuid1 = fun(namespace, b"test");
    let uuid2 = fun(namespace, b"test");
    assert_eq!(
        uuid1, uuid2,
        "UUID's from different times with the same name/namespace must be equal"
    );

    let uuid = fun(namespace, b"Cat");
    assert_ne!(
        uuid, uuid2,
        "UUID's with two different names in the same namespace must NOT be equal"
    );

    let uuid = fun(namespace2, b"test");
    assert_ne!(
        uuid, uuid2,
        "UUID's with the same names in a different namespace must NOT be equal"
    );

    assert_eq!(uuid.version(), ver);
    assert_eq!(uuid.variant(), Variant::Rfc4122);
}

#[test]
fn time() {
    let (ticks, counter, node) = (138788330336896890u64, 8648, *b"world!");

    let uuid = Uuid::new_v1(ticks, counter, node);
    let uuid_ = uuid::Uuid::new_v1(uuid::Timestamp::from_rfc4122(ticks, counter), &node);
    assert_eq!(uuid.to_bytes(), *uuid_.as_bytes());
    assert_eq!(uuid.version(), Version::Time);
    assert_eq!(uuid.variant(), Variant::Rfc4122);
}

#[test]
fn md5() {
    name(Uuid::new_v3, Version::Md5);
    let uuid = Uuid::new_v3(namespace_dns(), b"www.widgets.com");
    assert_eq!(
        uuid,
        // From Appendix B, with errata 1352, since the original RFC
        // text had it wrong.
        Uuid::from_str("3d813cbb-47fb-32ba-91df-831e1593ac29").unwrap()
    )
}

#[test]
fn sha1() {
    name(Uuid::new_v5, Version::Sha1)
}

#[test]
fn parse_string() {
    let test = &[UUID_V4, UUID_V4_URN, UUID_V4_BRACED, UUID_V4_SIMPLE];
    for uuid in test {
        let uuid = Uuid::from_str(&uuid.to_ascii_lowercase()).unwrap();
        assert_eq!(RAW, uuid.to_bytes(), "Parsed UUID bytes don't match");
    }

    for uuid in test {
        let uuid = Uuid::from_str(&uuid.to_ascii_uppercase()).unwrap();
        assert_eq!(RAW, uuid.to_bytes(), "Parsed UUID bytes don't match");
    }
}

#[test]
fn string() {
    let uuid = Uuid::from_bytes(RAW);
    let mut buf36 = [0u8; 36];
    uuid.to_str(&mut buf36);
    assert_eq!(
        std::str::from_utf8(&buf36).unwrap(),
        UUID_V4,
        "UUID strings didn't match"
    );
    let mut buf45 = [0u8; 45];
    uuid.to_urn(&mut buf45);
    assert_eq!(
        std::str::from_utf8(&buf45).unwrap(),
        UUID_V4_URN,
        "UUID URN strings didn't match"
    );
    uuid.to_urn_upper(&mut buf45);
    assert_eq!(
        std::str::from_utf8(&buf45).unwrap(),
        UUID_V4_URN_UPPER,
        "UUID URN upper strings didn't match"
    );
    uuid.to_str_upper(&mut buf36);
    assert_eq!(
        std::str::from_utf8(&buf36).unwrap(),
        UUID_V4.to_ascii_uppercase(),
        "UUID Display didn't match"
    );
    let mut nil_buf = [0u8; 36];
    Uuid::nil().to_str_upper(&mut nil_buf);
    assert_eq!(
        std::str::from_utf8(&nil_buf).unwrap(),
        UUID_NIL,
        "Nil UUID Display didn't work!"
    );
}

#[test]
fn endian() {
    let uuid_be = Uuid::from_bytes(RAW);
    assert_eq!(uuid_be.version(), Version::Random);
    assert_eq!(uuid_be.variant(), Variant::Rfc4122);

    let uuid_le = Uuid::from_bytes_me(uuid_be.to_bytes_me());
    assert_eq!(uuid_le.version(), Version::Random);
    assert_eq!(uuid_le.variant(), Variant::Rfc4122);

    assert_eq!(uuid_le, uuid_be);
    assert_ne!(uuid_be.to_bytes_me(), uuid_be.to_bytes());

    // A swapped UUID as shown by partition-table tooling: displayed
    // wrong, but it still has to parse right.
    const UUID: &str = "20169084-b186-884f-b110-3db2c37eb8b5";
    let uuid = Uuid::parse_me(UUID).unwrap();
    let bad_uuid = Uuid::parse(UUID).unwrap();

    // Read without the swap, the version nibble is 8, so the value
    // masquerades as a vendor UUID rather than the random one it is.
    assert_eq!(bad_uuid.version(), Version::Vendor);

    assert_eq!(uuid.version(), Version::Random);
    assert_eq!(uuid.variant(), Variant::Rfc4122);
    // Cant be equal because endian
    let mut buf = [0u8; 36];
    uuid.to_str(&mut buf);
    assert_ne!(std::str::from_utf8(&buf).unwrap(), UUID);
}

#[test]
fn info() {
    let uuid = Uuid::from_bytes(RAW);
    assert_eq!(uuid.version(), Version::Random);
    assert_eq!(uuid.variant(), Variant::Rfc4122);
    {
        let uuid = Uuid::new_v4();
        assert_eq!(uuid.version(), Version::Random);
        assert_eq!(uuid.variant(), Variant::Rfc4122);
    }
}

#[test]
fn timestamp() {
    let (ticks, counter, node) = (138788330336896890u64, 8648, *b"world!");

    let uuid = Uuid::new_v1(ticks, counter, node);
    let uuid_ = uuid::Uuid::new_v1(uuid::Timestamp::from_rfc4122(ticks, counter), &node);
    assert_eq!(
        uuid.timestamp(),
        uuid_.get_timestamp().unwrap().to_rfc4122().0
    );
    assert_eq!(
        uuid.clock_sequence(),
        uuid_.get_timestamp().unwrap().to_rfc4122().1
    );
}

#[test]
fn roundtrip_every_shape() {
    let uuid = Uuid::from_bytes(RAW);

    let mut hyph = [0u8; 36];
    uuid.to_str(&mut hyph);
    assert_eq!(Uuid::parse(std::str::from_utf8(&hyph).unwrap()).unwrap(), uuid);
    uuid.to_str_upper(&mut hyph);
    assert_eq!(Uuid::parse(std::str::from_utf8(&hyph).unwrap()).unwrap(), uuid);

    let mut urn = [0u8; 45];
    uuid.to_urn(&mut urn);
    assert_eq!(Uuid::parse(std::str::from_utf8(&urn).unwrap()).unwrap(), uuid);
    uuid.to_urn_upper(&mut urn);
    assert_eq!(Uuid::parse(std::str::from_utf8(&urn).unwrap()).unwrap(), uuid);

    let mut braced = [0u8; 38];
    uuid.to_braced(&mut braced);
    assert_eq!(std::str::from_utf8(&braced).unwrap(), UUID_V4_BRACED);
    assert_eq!(Uuid::parse(std::str::from_utf8(&braced).unwrap()).unwrap(), uuid);
    uuid.to_braced_upper(&mut braced);
    assert_eq!(Uuid::parse(std::str::from_utf8(&braced).unwrap()).unwrap(), uuid);

    assert_eq!(Uuid::parse(UUID_V4_SIMPLE).unwrap(), uuid);
}

#[test]
fn parse_rejects() {
    // Length outside the four shapes.
    assert_eq!(Uuid::parse(""), Err(ParseUuidError));
    assert_eq!(Uuid::parse("662aa7c7-7598-4d56-8bcc-a72c30f998a"), Err(ParseUuidError));
    assert_eq!(Uuid::parse("662aa7c7-7598-4d56-8bcc-a72c30f998a2x"), Err(ParseUuidError));
    // A bad digit in a hex group.
    assert_eq!(Uuid::parse("g62aa7c7-7598-4d56-8bcc-a72c30f998a2"), Err(ParseUuidError));
    assert_eq!(Uuid::parse("662aa7c775984d568bcca72c30f998ag"), Err(ParseUuidError));
    // A sign would be a bad digit too, not a number prefix.
    assert_eq!(Uuid::parse("+62aa7c7-7598-4d56-8bcc-a72c30f998a2"), Err(ParseUuidError));
    // Non-ASCII input of an accepted length.
    assert_eq!(Uuid::parse("é62aa7c7-7598-4d56-8bcc-a72c30f998a"), Err(ParseUuidError));
}

#[test]
fn parse_strips_by_position() {
    // The braced and URN shapes are told apart by length; the
    // delimiters are stripped by position, not validated.
    let uuid = Uuid::from_bytes(RAW);
    assert_eq!(Uuid::parse("(662aa7c7-7598-4d56-8bcc-a72c30f998a2)").unwrap(), uuid);
    assert_eq!(Uuid::parse("xxxxxxxxx662aa7c7-7598-4d56-8bcc-a72c30f998a2").unwrap(), uuid);
}

#[test]
fn nil_and_max() {
    let nil = Uuid::nil();
    assert!(nil.is_nil());
    assert_eq!(nil.to_bytes(), [0u8; 16]);
    assert_eq!(nil.version(), Version::Nil);
    let mut buf = [0u8; 36];
    nil.to_str(&mut buf);
    assert_eq!(std::str::from_utf8(&buf).unwrap(), UUID_NIL);

    let max = Uuid::max();
    assert!(!max.is_nil());
    assert_eq!(max.to_bytes(), [0xFFu8; 16]);
    // 0xF is outside the enumerated version set, so it reads as Nil.
    assert_eq!(max.version(), Version::Nil);
    assert_eq!(max.variant(), Variant::Reserved);
    max.to_str(&mut buf);
    assert_eq!(
        std::str::from_utf8(&buf).unwrap(),
        "ffffffff-ffff-ffff-ffff-ffffffffffff"
    );
}

#[test]
fn v5_known_vector() {
    let uuid = Uuid::new_v5(namespace_dns(), b"www.example.com");
    assert_eq!(
        uuid,
        Uuid::parse("2ed6657d-e927-568b-95e1-2665a8aea6a2").unwrap()
    );
    assert_eq!(uuid.version(), Version::Sha1);
    assert_eq!(uuid.variant(), Variant::Rfc4122);
}

#[test]
fn namespaces() {
    let mut buf = [0u8; 36];
    nuuid::namespace_dns().to_str(&mut buf);
    assert_eq!(
        std::str::from_utf8(&buf).unwrap(),
        "6ba7b810-9dad-11d1-80b4-00c04fd430c8"
    );
    nuuid::namespace_url().to_str(&mut buf);
    assert_eq!(
        std::str::from_utf8(&buf).unwrap(),
        "6ba7b811-9dad-11d1-80b4-00c04fd430c8"
    );
    nuuid::namespace_oid().to_str(&mut buf);
    assert_eq!(
        std::str::from_utf8(&buf).unwrap(),
        "6ba7b812-9dad-11d1-80b4-00c04fd430c8"
    );
    nuuid::namespace_x500().to_str(&mut buf);
    assert_eq!(
        std::str::from_utf8(&buf).unwrap(),
        "6ba7b814-9dad-11d1-80b4-00c04fd430c8"
    );
}

#[test]
fn v1_truncates_oversized_inputs() {
    let node = [1u8, 2, 3, 4, 5, 6];
    let uuid = Uuid::new_v1(u64::MAX, u16::MAX, node);
    assert_eq!(uuid.timestamp(), 0x0FFF_FFFF_FFFF_FFFF);
    assert_eq!(uuid.clock_sequence(), 0x3FFF);
    assert_eq!(uuid.version(), Version::Time);
    assert_eq!(uuid.variant(), Variant::Rfc4122);

    // The same value with the discarded bits cleared beforehand.
    let same = Uuid::new_v1(0x0FFF_FFFF_FFFF_FFFF, 0x3FFF, node);
    assert_eq!(uuid, same);
}

#[test]
fn v8_keeps_payload_outside_tags() {
    let payload = *b"I Am 16 bytes!!!";
    let uuid = Uuid::new_v8(payload);
    assert_eq!(uuid.version(), Version::Vendor);
    assert_eq!(uuid.variant(), Variant::Rfc4122);
    let out = uuid.to_bytes();
    for i in 0..16 {
        if i != 6 && i != 8 {
            assert_eq!(out[i], payload[i]);
        }
    }
    // Only the low nibble of byte 6 and the low six bits of byte 8
    // come from the payload.
    assert_eq!(out[6], (payload[6] & 0x0F) | 0x80);
    assert_eq!(out[8], (payload[8] & 0x3F) | 0x80);
}

#[test]
fn seeded_rng_is_deterministic() {
    let seed = [7u8; 32];
    let mut rng1 = Rng::from_seed(seed);
    let mut rng2 = Rng::from_seed(seed);
    let a = Uuid::new_v4_rng(&mut rng1);
    let b = Uuid::new_v4_rng(&mut rng2);
    assert_eq!(a, b);
    assert_eq!(a.version(), Version::Random);
    assert_eq!(a.variant(), Variant::Rfc4122);

    // The stream advances: a second draw differs from the first.
    let c = Uuid::new_v4_rng(&mut rng1);
    assert_ne!(a, c);

    // A different seed gives a different stream.
    let mut rng3 = Rng::from_seed([8u8; 32]);
    let d = Uuid::new_v4_rng(&mut rng3);
    assert_ne!(a, d);
}

#[test]
fn name_based_is_deterministic() {
    let ns = namespace_dns();
    assert_eq!(Uuid::new_v3(ns, b"a"), Uuid::new_v3(ns, b"a"));
    assert_eq!(Uuid::new_v5(ns, b"a"), Uuid::new_v5(ns, b"a"));
    assert_ne!(Uuid::new_v3(ns, b"a"), Uuid::new_v3(ns, b"b"));
    assert_ne!(Uuid::new_v5(ns, b"a"), Uuid::new_v5(ns, b"b"));
    assert_ne!(
        Uuid::new_v3(nuuid::namespace_url(), b"a"),
        Uuid::new_v3(ns, b"a")
    );
}
