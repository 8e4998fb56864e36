use build_id::hasher::HashAccumulator;
use build_id::identifier::BuildIdentifier;
use std::any::TypeId;
use std::hash::{Hash, Hasher};

#[test]
fn digest_of_nothing() {
    let h = HashAccumulator::with_seed(0);
    assert_eq!(h.total_len(), 0);
    assert_eq!(h.finish(), 0xEF46_DB37_51D8_E999);
}

#[test]
fn seed_changes_the_digest() {
    let a = HashAccumulator::with_seed(0);
    let b = HashAccumulator::with_seed(1);
    assert_ne!(a.finish(), b.finish());
    assert_eq!(b.finish(), twox_hash::XxHash64::with_seed(1).finish());
}

#[test]
fn digest_ignores_how_the_input_was_cut() {
    let mut a = HashAccumulator::with_seed(0);
    a.write(b"abc");
    let mut b = HashAccumulator::with_seed(0);
    b.write(b"a");
    b.write(b"");
    b.write(b"bc");
    assert_eq!(a.finish(), b.finish());
    assert_eq!(a.total_len(), 3);
    assert_eq!(b.total_len(), 3);
    let mut direct = twox_hash::XxHash64::with_seed(0);
    direct.write(b"abc");
    assert_eq!(a.finish(), direct.finish());
    assert_ne!(a.finish(), HashAccumulator::with_seed(0).finish());
}

#[test]
fn one_byte_is_a_write_of_one_byte() {
    let mut a = HashAccumulator::with_seed(0);
    a.write(b"abc");
    a.write_u8(0);
    let mut b = HashAccumulator::with_seed(0);
    b.write(b"abc\0");
    assert_eq!(a.finish(), b.finish());
    assert_eq!(a.total_len(), 4);
}

#[test]
fn finish_leaves_the_state() {
    let mut a = HashAccumulator::with_seed(0);
    a.write(b"abc");
    let first = a.finish();
    assert_eq!(first, a.finish());
    assert_eq!(a.total_len(), 3);
}

#[test]
fn type_identity_is_fed_as_std_hashes_it() {
    let id = TypeId::of::<u8>();
    let mut a = HashAccumulator::with_seed(0);
    a.write(b"abc");
    a.write_type_id(&id);
    let mut direct = twox_hash::XxHash64::with_seed(0);
    direct.write(b"abc");
    id.hash(&mut direct);
    assert_eq!(a.finish(), direct.finish());
    assert_eq!(a.total_len(), direct.total_len());
    assert!(a.total_len() > 3);
}

#[test]
fn raw_ones() {
    let id = BuildIdentifier::from_raw([0xff; 16]);
    let mut expected = [0xffu8; 16];
    expected[6] = 0x4f;
    expected[8] = 0xbf;
    assert_eq!(id.as_bytes(), expected);
    assert_eq!(id.version(), 4);
    assert_eq!(id.variant_bits(), 2);
}

#[test]
fn raw_zeros() {
    let id = BuildIdentifier::from_raw([0; 16]);
    let mut expected = [0u8; 16];
    expected[6] = 0x40;
    expected[8] = 0x80;
    assert_eq!(id.as_bytes(), expected);
}

#[test]
fn raw_bytes_keep_their_order() {
    let id = BuildIdentifier::from_raw([1, 2, 3, 4, 5, 6, 7, 8, 9, 10, 11, 12, 13, 14, 15, 16]);
    assert_eq!(
        id.as_bytes(),
        [1, 2, 3, 4, 5, 6, 0x47, 8, 0x89, 10, 11, 12, 13, 14, 15, 16]
    );
}

#[test]
fn tagging_agrees_with_the_uuid_builder() {
    let raw: [u8; 16] = [
        0x10, 0x32, 0x54, 0x76, 0x98, 0xba, 0xdc, 0xfe, 0x01, 0x23, 0x45, 0x67, 0x89, 0xab, 0xcd,
        0xef,
    ];
    let id = BuildIdentifier::from_raw(raw);
    let uuid = uuid::Builder::from_bytes(raw)
        .with_variant(uuid::Variant::RFC4122)
        .with_version(uuid::Version::Random)
        .into_uuid();
    assert_eq!(&id.as_bytes(), uuid.as_bytes());
    assert_eq!(id.as_bytes()[6], 0x4c);
    assert_eq!(id.as_bytes()[8], 0x81);
}

#[test]
fn expansion_is_two_digests_in_native_order() {
    let mut h = HashAccumulator::with_seed(0);
    h.write(b"abc");
    let id = BuildIdentifier::from_hasher(h);

    let mut direct = twox_hash::XxHash64::with_seed(0);
    direct.write(b"abc");
    let first = direct.finish();
    direct.write_u8(0);
    let second = direct.finish();
    assert_ne!(first, second);
    let mut expected = [0u8; 16];
    expected[..8].copy_from_slice(&first.to_ne_bytes());
    expected[8..].copy_from_slice(&second.to_ne_bytes());
    expected[6] = (expected[6] & 0x0f) | 0x40;
    expected[8] = (expected[8] & 0x3f) | 0x80;
    assert_eq!(id.as_bytes(), expected);
}

#[test]
fn expansion_of_the_empty_state() {
    let id = BuildIdentifier::from_hasher(HashAccumulator::with_seed(0));
    let first: u64 = 0xEF46_DB37_51D8_E999;
    let bytes = id.as_bytes();
    let native = first.to_ne_bytes();
    for i in 0..8 {
        if i != 6 {
            assert_eq!(bytes[i], native[i]);
        }
    }
    assert_eq!(bytes[6] & 0x0f, native[6] & 0x0f);
    assert_eq!(bytes[6] & 0xf0, 0x40);
    assert_eq!(bytes[8] & 0xc0, 0x80);
}

#[test]
fn expansion_does_not_disturb_the_callers_state() {
    let mut h = HashAccumulator::with_seed(0);
    h.write(b"abc");
    let before = h.finish();
    let a = BuildIdentifier::from_hasher(h);
    let b = BuildIdentifier::from_hasher(h);
    assert_eq!(a, b);
    assert_eq!(h.finish(), before);
}

#[test]
fn identities_are_fed_in_the_order_given() {
    let unit = TypeId::of::<()>();
    let byte = TypeId::of::<u8>();
    let first = TypeId::of::<u16>();
    let second = TypeId::of::<u32>();
    let mut start = HashAccumulator::with_seed(0);
    start.write(b"abc");
    let h = build_id::selector::feed_identities(start, &unit, &byte, &first, &second);

    let mut direct = twox_hash::XxHash64::with_seed(0);
    direct.write(b"abc");
    unit.hash(&mut direct);
    byte.hash(&mut direct);
    first.hash(&mut direct);
    second.hash(&mut direct);
    assert_eq!(h.finish(), direct.finish());
    assert_eq!(h.total_len(), direct.total_len());
    assert_ne!(h.finish(), start.finish());

    let swapped = build_id::selector::feed_identities(start, &byte, &unit, &first, &second);
    assert_eq!(swapped.total_len(), h.total_len());
    assert_ne!(swapped.finish(), h.finish());
}

#[test]
fn fingerprint_holds_four_identities() {
    let start = HashAccumulator::with_seed(0);
    let full = match build_id::selector::from_type_id(start) {
        Ok(h) => h,
        Err(e) => panic!("fingerprint failed: {:?}", e),
    };
    let mut two = HashAccumulator::with_seed(0);
    two.write_type_id(&TypeId::of::<()>());
    two.write_type_id(&TypeId::of::<u8>());
    assert_eq!(full.total_len(), 2 * two.total_len());
    assert_ne!(full.finish(), two.finish());
}

#[test]
fn one_identity_is_fed_as_std_hashes_it() {
    let id = TypeId::of::<u64>();
    let mut start = HashAccumulator::with_seed(0);
    start.write(b"abc");
    let h = build_id::selector::feed_identity(start, &id);
    let mut direct = twox_hash::XxHash64::with_seed(0);
    direct.write(b"abc");
    id.hash(&mut direct);
    assert_eq!(h.finish(), direct.finish());
    assert_eq!(h.total_len(), direct.total_len());
    assert_ne!(h.finish(), start.finish());
}
