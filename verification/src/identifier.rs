//! The 128-bit build identifier and how a hash state is expanded into one.

use crate::hasher::{xxh64, HashAccumulator};
use byteorder::ByteOrder;
use vstd::prelude::*;

verus! {

/// The byte that is fed between the two digests of an identifier.
pub const DISCRIMINATOR: u8 = 0;

/// The eight bytes of `v`, least significant first.
pub open spec fn le_bytes(v: u64) -> Seq<u8> {
    seq![
        (v & 0xff) as u8,
        ((v >> 8) & 0xff) as u8,
        ((v >> 16) & 0xff) as u8,
        ((v >> 24) & 0xff) as u8,
        ((v >> 32) & 0xff) as u8,
        ((v >> 40) & 0xff) as u8,
        ((v >> 48) & 0xff) as u8,
        ((v >> 56) & 0xff) as u8,
    ]
}

/// The eight bytes of `v`, most significant first.
pub open spec fn be_bytes(v: u64) -> Seq<u8> {
    le_bytes(v).reverse()
}

/// `v` as a machine lays it out in memory: least significant byte first on
/// a little-endian machine, most significant first on a big-endian one.
pub open spec fn layout(v: u64, little: bool) -> Seq<u8> {
    if little {
        le_bytes(v)
    } else {
        be_bytes(v)
    }
}

/// `raw` with the variant field set to RFC 4122 and the version field set to
/// 4 (random); the other 122 bits are kept.
pub open spec fn tagged(raw: Seq<u8>) -> Seq<u8> {
    raw.update(8, (raw[8] & 0x3f) | 0x80).update(6, (raw[6] & 0x0f) | 0x40)
}

/// The sixteen bytes `id` carry the variant bits `10` and the version
/// nibble `0100`.
pub open spec fn has_fixed_fields(id: Seq<u8>) -> bool {
    &&& id.len() == 16
    &&& id[6] & 0xf0 == 0x40
    &&& id[8] & 0xc0 == 0x80
}

/// The identifier of a hash state with the given seed and input on a machine
/// of the given byte order: the digest of the input, then the digest of the
/// input followed by the discriminator byte, both laid out in that order, and
/// the fixed fields set.
pub open spec fn identifier_in(seed: u64, input: Seq<u8>, little: bool) -> Seq<u8> {
    tagged(
        layout(xxh64(seed, input), little) + layout(
            xxh64(seed, input.push(DISCRIMINATOR)),
            little,
        ),
    )
}

/// `id` is the identifier of a hash state with the given seed and input, in
/// one of the two byte orders.
pub open spec fn identifies(id: Seq<u8>, seed: u64, input: Seq<u8>) -> bool {
    exists|little: bool| id == #[trigger] identifier_in(seed, input, little)
}

/// `byteorder::NativeEndian::write_u64_into` on two numbers and a buffer of
/// sixteen bytes: the buffer then holds `first` and after it `second`, both
/// in the byte order of the machine, which is the little-endian or the
/// big-endian one.
#[verifier::external_body]
fn native_pair(first: u64, second: u64) -> (out: [u8; 16])
    ensures
        out@ == layout(first, true) + layout(second, true) || out@ == layout(first, false)
            + layout(second, false),
{
    let mut out = [0u8; 16];
    byteorder::NativeEndian::write_u64_into(&[first, second], &mut out);
    out
}

/// `uuid::Builder::with_variant` for `Variant::RFC4122`, on a builder made
/// from `bytes`: the two top bits of byte 8 become `10`, all else is kept.
#[verifier::external_body]
fn with_variant_rfc4122(bytes: [u8; 16]) -> (out: [u8; 16])
    ensures
        out@ == bytes@.update(8, (bytes@[8] & 0x3f) | 0x80),
{
    uuid::Builder::from_bytes(bytes).with_variant(uuid::Variant::RFC4122).into_uuid().into_bytes()
}

/// `uuid::Builder::with_version` for `Version::Random`, on a builder made
/// from `bytes`: the high nibble of byte 6 becomes 4, all else is kept.
#[verifier::external_body]
fn with_version_random(bytes: [u8; 16]) -> (out: [u8; 16])
    ensures
        out@ == bytes@.update(6, (bytes@[6] & 0x0f) | 0x40),
{
    uuid::Builder::from_bytes(bytes).with_version(uuid::Version::Random).into_uuid().into_bytes()
}

/// A 128-bit value that stands for one build of a binary. Its variant and
/// version fields are those of a random UUID; the other bits carry the hash.
#[derive(Clone, Copy, Debug, PartialEq, Eq, Hash)]
pub struct BuildIdentifier {
    bytes: [u8; 16],
}

impl View for BuildIdentifier {
    type V = Seq<u8>;

    closed spec fn view(&self) -> Seq<u8> {
        self.bytes@
    }
}

impl BuildIdentifier {
    #[verifier::type_invariant]
    spec fn fixed_fields_set(self) -> bool {
        has_fixed_fields(self.bytes@)
    }

    /// The identifier that carries `raw`, but for the variant and version
    /// fields.
    pub fn from_raw(raw: [u8; 16]) -> (id: BuildIdentifier)
        ensures
            id@ == tagged(raw@),
            has_fixed_fields(id@),
    {
        let bytes = with_version_random(with_variant_rfc4122(raw));
        proof {
            assert(bytes@ =~= tagged(raw@));
            lemma_tagged_has_fixed_fields(raw@);
        }
        BuildIdentifier { bytes }
    }

    /// Expands the state of `hasher` into an identifier: its digest, then its
    /// digest after one more byte, the discriminator, has been fed.
    pub fn from_hasher(hasher: HashAccumulator) -> (id: BuildIdentifier)
        requires
            hasher.fed().len() < u64::MAX,
        ensures
            identifies(id@, hasher.seed(), hasher.fed()),
            has_fixed_fields(id@),
    {
        let mut advanced = hasher;
        let first = hasher.finish();
        advanced.write_u8(DISCRIMINATOR);
        let second = advanced.finish();
        let raw = native_pair(first, second);
        let id = BuildIdentifier::from_raw(raw);
        proof {
            let little = raw@ == layout(first, true) + layout(second, true);
            assert(id@ == identifier_in(hasher.seed(), hasher.fed(), little));
        }
        id
    }

    /// The sixteen bytes of the identifier.
    pub fn as_bytes(&self) -> (out: [u8; 16])
        ensures
            out@ == self@,
            has_fixed_fields(out@),
    {
        proof {
            use_type_invariant(self);
        }
        self.bytes
    }

    /// The version field: always 4.
    pub fn version(&self) -> (v: u8)
        ensures
            v == 4,
            v == (self@[6] & 0xf0) >> 4,
    {
        proof {
            use_type_invariant(self);
        }
        let b: u8 = self.bytes[6];
        assert(b & 0xf0 == 0x40 ==> (b & 0xf0) >> 4 == 4) by (bit_vector);
        (b & 0xf0) >> 4
    }

    /// The variant field, as the two top bits of byte 8: always `0b10`.
    pub fn variant_bits(&self) -> (v: u8)
        ensures
            v == 2,
            v == (self@[8] & 0xc0) >> 6,
    {
        proof {
            use_type_invariant(self);
        }
        let b: u8 = self.bytes[8];
        assert(b & 0xc0 == 0x80 ==> (b & 0xc0) >> 6 == 2) by (bit_vector);
        (b & 0xc0) >> 6
    }
}

/// Tagging sixteen bytes sets the fixed fields, whatever the bytes were.
pub proof fn lemma_tagged_has_fixed_fields(raw: Seq<u8>)
    requires
        raw.len() == 16,
    ensures
        has_fixed_fields(tagged(raw)),
{
    let a: u8 = raw[6];
    let b: u8 = raw[8];
    assert(((a & 0x0f) | 0x40) & 0xf0 == 0x40) by (bit_vector);
    assert(((b & 0x3f) | 0x80) & 0xc0 == 0x80) by (bit_vector);
}

/// Whatever identifies a hash state has the fixed fields set, in either byte
/// order.
pub proof fn lemma_identified_has_fixed_fields(id: Seq<u8>, seed: u64, input: Seq<u8>)
    requires
        identifies(id, seed, input),
    ensures
        has_fixed_fields(id),
{
    let little = choose|little: bool| id == #[trigger] identifier_in(seed, input, little);
    let raw = layout(xxh64(seed, input), little) + layout(
        xxh64(seed, input.push(DISCRIMINATOR)),
        little,
    );
    assert(raw.len() == 16);
    lemma_tagged_has_fixed_fields(raw);
}

/// The bits of the first digest that an identifier carries: all but the four
/// that the version field overwrites.
pub open spec fn first_digest_mask(little: bool) -> u64 {
    if little {
        0xff0f_ffff_ffff_ffff
    } else {
        0xffff_ffff_ffff_0fff
    }
}

/// The bits of the second digest that an identifier carries: all but the two
/// that the variant field overwrites.
pub open spec fn second_digest_mask(little: bool) -> u64 {
    if little {
        0xffff_ffff_ffff_ff3f
    } else {
        0x3fff_ffff_ffff_ffff
    }
}

/// Two numbers whose little-endian bytes agree, but for the high nibble of
/// byte `6` (of byte `1` where `little` is false), agree under the first
/// mask.
proof fn lemma_first_digest_agrees(p: u64, q: u64, little: bool)
    requires
        forall|k: int| 0 <= k < 8 && k != (if little { 6int } else { 1int }) ==> le_bytes(p)[k]
            == le_bytes(q)[k],
        little ==> le_bytes(p)[6] & 0x0f == le_bytes(q)[6] & 0x0f,
        !little ==> le_bytes(p)[1] & 0x0f == le_bytes(q)[1] & 0x0f,
    ensures
        p & first_digest_mask(little) == q & first_digest_mask(little),
{
    if little {
        assert(le_bytes(p)[0] == le_bytes(q)[0] && le_bytes(p)[1] == le_bytes(q)[1] && le_bytes(
            p,
        )[2] == le_bytes(q)[2] && le_bytes(p)[3] == le_bytes(q)[3] && le_bytes(p)[4] == le_bytes(
            q,
        )[4] && le_bytes(p)[5] == le_bytes(q)[5] && le_bytes(p)[7] == le_bytes(q)[7]);
        assert((p & 0xff) as u8 == (q & 0xff) as u8 && ((p >> 8) & 0xff) as u8 == ((q >> 8)
            & 0xff) as u8 && ((p >> 16) & 0xff) as u8 == ((q >> 16) & 0xff) as u8 && ((p >> 24)
            & 0xff) as u8 == ((q >> 24) & 0xff) as u8 && ((p >> 32) & 0xff) as u8 == ((q >> 32)
            & 0xff) as u8 && ((p >> 40) & 0xff) as u8 == ((q >> 40) & 0xff) as u8 && (((p >> 48)
            & 0xff) as u8) & 0x0f == (((q >> 48) & 0xff) as u8) & 0x0f && ((p >> 56)
            & 0xff) as u8 == ((q >> 56) & 0xff) as u8 ==> p & 0xff0f_ffff_ffff_ffff == q
            & 0xff0f_ffff_ffff_ffff) by (bit_vector);
    } else {
        assert(le_bytes(p)[0] == le_bytes(q)[0] && le_bytes(p)[2] == le_bytes(q)[2] && le_bytes(
            p,
        )[3] == le_bytes(q)[3] && le_bytes(p)[4] == le_bytes(q)[4] && le_bytes(p)[5] == le_bytes(
            q,
        )[5] && le_bytes(p)[6] == le_bytes(q)[6] && le_bytes(p)[7] == le_bytes(q)[7]);
        assert((p & 0xff) as u8 == (q & 0xff) as u8 && (((p >> 8) & 0xff) as u8) & 0x0f == (((q
            >> 8) & 0xff) as u8) & 0x0f && ((p >> 16) & 0xff) as u8 == ((q >> 16) & 0xff) as u8
            && ((p >> 24) & 0xff) as u8 == ((q >> 24) & 0xff) as u8 && ((p >> 32)
            & 0xff) as u8 == ((q >> 32) & 0xff) as u8 && ((p >> 40) & 0xff) as u8 == ((q >> 40)
            & 0xff) as u8 && ((p >> 48) & 0xff) as u8 == ((q >> 48) & 0xff) as u8 && ((p >> 56)
            & 0xff) as u8 == ((q >> 56) & 0xff) as u8 ==> p & 0xffff_ffff_ffff_0fff == q
            & 0xffff_ffff_ffff_0fff) by (bit_vector);
    }
}

/// Two numbers whose little-endian bytes agree, but for the two top bits of
/// byte `0` (of byte `7` where `little` is false), agree under the second
/// mask.
proof fn lemma_second_digest_agrees(p: u64, q: u64, little: bool)
    requires
        forall|k: int| 0 <= k < 8 && k != (if little { 0int } else { 7int }) ==> le_bytes(p)[k]
            == le_bytes(q)[k],
        little ==> le_bytes(p)[0] & 0x3f == le_bytes(q)[0] & 0x3f,
        !little ==> le_bytes(p)[7] & 0x3f == le_bytes(q)[7] & 0x3f,
    ensures
        p & second_digest_mask(little) == q & second_digest_mask(little),
{
    if little {
        assert(le_bytes(p)[1] == le_bytes(q)[1] && le_bytes(p)[2] == le_bytes(q)[2] && le_bytes(
            p,
        )[3] == le_bytes(q)[3] && le_bytes(p)[4] == le_bytes(q)[4] && le_bytes(p)[5] == le_bytes(
            q,
        )[5] && le_bytes(p)[6] == le_bytes(q)[6] && le_bytes(p)[7] == le_bytes(q)[7]);
        assert(((p & 0xff) as u8) & 0x3f == ((q & 0xff) as u8) & 0x3f && ((p >> 8)
            & 0xff) as u8 == ((q >> 8) & 0xff) as u8 && ((p >> 16) & 0xff) as u8 == ((q >> 16)
            & 0xff) as u8 && ((p >> 24) & 0xff) as u8 == ((q >> 24) & 0xff) as u8 && ((p >> 32)
            & 0xff) as u8 == ((q >> 32) & 0xff) as u8 && ((p >> 40) & 0xff) as u8 == ((q >> 40)
            & 0xff) as u8 && ((p >> 48) & 0xff) as u8 == ((q >> 48) & 0xff) as u8 && ((p >> 56)
            & 0xff) as u8 == ((q >> 56) & 0xff) as u8 ==> p & 0xffff_ffff_ffff_ff3f == q
            & 0xffff_ffff_ffff_ff3f) by (bit_vector);
    } else {
        assert(le_bytes(p)[0] == le_bytes(q)[0] && le_bytes(p)[1] == le_bytes(q)[1] && le_bytes(
            p,
        )[2] == le_bytes(q)[2] && le_bytes(p)[3] == le_bytes(q)[3] && le_bytes(p)[4] == le_bytes(
            q,
        )[4] && le_bytes(p)[5] == le_bytes(q)[5] && le_bytes(p)[6] == le_bytes(q)[6]);
        assert((p & 0xff) as u8 == (q & 0xff) as u8 && ((p >> 8) & 0xff) as u8 == ((q >> 8)
            & 0xff) as u8 && ((p >> 16) & 0xff) as u8 == ((q >> 16) & 0xff) as u8 && ((p >> 24)
            & 0xff) as u8 == ((q >> 24) & 0xff) as u8 && ((p >> 32) & 0xff) as u8 == ((q >> 32)
            & 0xff) as u8 && ((p >> 40) & 0xff) as u8 == ((q >> 40) & 0xff) as u8 && ((p >> 48)
            & 0xff) as u8 == ((q >> 48) & 0xff) as u8 && (((p >> 56) & 0xff) as u8) & 0x3f == (((q
            >> 56) & 0xff) as u8) & 0x3f ==> p & 0x3fff_ffff_ffff_ffff == q
            & 0x3fff_ffff_ffff_ffff) by (bit_vector);
    }
}

/// Equal identifiers come from digests that agree on every bit that an
/// identifier carries: two hash states whose identifiers, in one byte order,
/// are the same bytes have first digests that differ at most in the four
/// bits under the version field, and second digests that differ at most in
/// the two bits under the variant field. Any other difference between the
/// digests shows in the identifiers.
pub proof fn lemma_equal_identifiers_equal_digests(
    seed: u64,
    a: Seq<u8>,
    b: Seq<u8>,
    little: bool,
)
    requires
        identifier_in(seed, a, little) == identifier_in(seed, b, little),
    ensures
        xxh64(seed, a) & first_digest_mask(little) == xxh64(seed, b) & first_digest_mask(little),
        xxh64(seed, a.push(DISCRIMINATOR)) & second_digest_mask(little) == xxh64(
            seed,
            b.push(DISCRIMINATOR),
        ) & second_digest_mask(little),
{
    let p = xxh64(seed, a);
    let q = xxh64(seed, b);
    let r = xxh64(seed, a.push(DISCRIMINATOR));
    let t = xxh64(seed, b.push(DISCRIMINATOR));
    let x = layout(p, little) + layout(r, little);
    let y = layout(q, little) + layout(t, little);
    assert(tagged(x) == tagged(y));
    assert forall|i: int| 0 <= i < 16 && i != 6 && i != 8 implies x[i] == y[i] by {
        assert(tagged(x)[i] == tagged(y)[i]);
    }
    let x6: u8 = x[6];
    let y6: u8 = y[6];
    let x8: u8 = x[8];
    let y8: u8 = y[8];
    assert(tagged(x)[6] == tagged(y)[6]);
    assert(tagged(x)[8] == tagged(y)[8]);
    assert((x6 & 0x0f) | 0x40 == (y6 & 0x0f) | 0x40 ==> x6 & 0x0f == y6 & 0x0f) by (bit_vector);
    assert((x8 & 0x3f) | 0x80 == (y8 & 0x3f) | 0x80 ==> x8 & 0x3f == y8 & 0x3f) by (bit_vector);
    assert forall|k: int| 0 <= k < 8 implies layout(p, little)[k] == x[k] && layout(q, little)[k]
        == y[k] && layout(r, little)[k] == x[k + 8] && layout(t, little)[k] == y[k + 8] by {}
    if little {
        assert forall|k: int| 0 <= k < 8 && k != 6 implies le_bytes(p)[k] == le_bytes(q)[k] by {
            assert(x[k] == y[k]);
        }
        assert forall|k: int| 0 <= k < 8 && k != 0 implies le_bytes(r)[k] == le_bytes(t)[k] by {
            assert(x[k + 8] == y[k + 8]);
        }
    } else {
        assert forall|k: int| 0 <= k < 8 implies be_bytes(p)[k] == le_bytes(p)[7 - k] && be_bytes(
            q,
        )[k] == le_bytes(q)[7 - k] && be_bytes(r)[k] == le_bytes(r)[7 - k] && be_bytes(t)[k]
            == le_bytes(t)[7 - k] by {}
        assert forall|k: int| 0 <= k < 8 && k != 1 implies le_bytes(p)[k] == le_bytes(q)[k] by {
            assert(x[7 - k] == y[7 - k]);
        }
        assert forall|k: int| 0 <= k < 8 && k != 7 implies le_bytes(r)[k] == le_bytes(t)[k] by {
            assert(x[15 - k] == y[15 - k]);
        }
    }
    lemma_first_digest_agrees(p, q, little);
    lemma_second_digest_agrees(r, t, little);
}

/// Tagging changes no bit outside the two fixed fields.
pub proof fn lemma_tagged_keeps_entropy(raw: Seq<u8>)
    requires
        raw.len() == 16,
    ensures
        tagged(raw).len() == 16,
        forall|i: int| 0 <= i < 16 && i != 6 && i != 8 ==> #[trigger] tagged(raw)[i] == raw[i],
        tagged(raw)[6] & 0x0f == raw[6] & 0x0f,
        tagged(raw)[8] & 0x3f == raw[8] & 0x3f,
{
    let a: u8 = raw[6];
    let b: u8 = raw[8];
    assert(((a & 0x0f) | 0x40) & 0x0f == a & 0x0f) by (bit_vector);
    assert(((b & 0x3f) | 0x80) & 0x3f == b & 0x3f) by (bit_vector);
}

} // verus!
