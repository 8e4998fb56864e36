//! The streaming 64-bit hash that every identity source is fed into.

use std::any::TypeId;
use twox_hash::XxHash64;
use vstd::prelude::*;

verus! {

/// The 64-bit hasher of `twox-hash`, carried as an opaque value.
#[verifier::external_type_specification]
#[verifier::external_body]
pub struct ExXxHash64(XxHash64);

/// `std::any::TypeId`, carried as an opaque value.
#[verifier::external_type_specification]
#[verifier::external_body]
pub struct ExTypeId(TypeId);

/// The most bytes that this library lets an accumulator take: half of what
/// its 64-bit counter can count. Nothing is fed to one that holds more, so
/// that no feed can run the counter over.
pub const FEED_LIMIT: u64 = 0x7fff_ffff_ffff_ffff;

/// The seed that a hasher was made with.
pub uninterp spec fn hasher_seed(h: XxHash64) -> u64;

/// Every byte written to a hasher since it was made, in order.
pub uninterp spec fn hasher_input(h: XxHash64) -> Seq<u8>;

/// The XXH64 digest of `input` under `seed`.
pub uninterp spec fn xxh64(seed: u64, input: Seq<u8>) -> u64;

/// The bytes that hashing a type identity feeds to a hasher. Equal
/// identities feed alike; which identity a type has, and how many bytes
/// stand for it, is the compiler's and the standard library's choice.
pub uninterp spec fn type_id_input(id: TypeId) -> Seq<u8>;

/// `XxHash64::with_seed`: a hasher that remembers `seed` and has been fed
/// nothing yet.
#[verifier::external_body]
fn xx_with_seed(seed: u64) -> (h: XxHash64)
    ensures
        hasher_seed(h) == seed,
        hasher_input(h) == Seq::<u8>::empty(),
{
    XxHash64::with_seed(seed)
}

/// `Hasher::write` of `XxHash64`: appends `bytes` to what the hasher has been
/// fed and keeps the seed. The hasher counts its input in a `u64`, and the
/// count must not overflow.
#[verifier::external_body]
fn xx_write(h: &mut XxHash64, bytes: &[u8])
    requires
        hasher_input(*old(h)).len() + bytes@.len() <= u64::MAX,
    ensures
        hasher_seed(*final(h)) == hasher_seed(*old(h)),
        hasher_input(*final(h)) == hasher_input(*old(h)) + bytes@,
{
    std::hash::Hasher::write(h, bytes)
}

/// `Hasher::write_u8` of `XxHash64`: the provided method, which writes the
/// one-byte slice holding `byte`.
#[verifier::external_body]
fn xx_write_u8(h: &mut XxHash64, byte: u8)
    requires
        hasher_input(*old(h)).len() + 1 <= u64::MAX,
    ensures
        hasher_seed(*final(h)) == hasher_seed(*old(h)),
        hasher_input(*final(h)) == hasher_input(*old(h)).push(byte),
{
    std::hash::Hasher::write_u8(h, byte)
}

/// `Hasher::finish` of `XxHash64`: the XXH64 digest of everything written so
/// far under the hasher's seed. The hasher itself is left as it was, and the
/// digest does not depend on how the input was cut into writes.
#[verifier::external_body]
fn xx_finish(h: &XxHash64) -> (digest: u64)
    ensures
        digest == xxh64(hasher_seed(*h), hasher_input(*h)),
{
    std::hash::Hasher::finish(h)
}

/// `XxHash64::total_len`: the number of bytes written so far.
#[verifier::external_body]
fn xx_total_len(h: &XxHash64) -> (n: u64)
    ensures
        n == hasher_input(*h).len(),
{
    h.total_len()
}

/// `Hash::hash` of `TypeId`, into an `XxHash64`: the bytes that stand for the
/// identity are appended to what the hasher has been fed, and the seed is
/// kept. Every feed of this hasher ends in its `write`. How many bytes an
/// identity feeds is not said; half of the counter is left free for them.
#[verifier::external_body]
fn xx_hash_type_id(h: &mut XxHash64, id: &TypeId)
    requires
        hasher_input(*old(h)).len() <= FEED_LIMIT,
    ensures
        hasher_seed(*final(h)) == hasher_seed(*old(h)),
        hasher_input(*final(h)) == hasher_input(*old(h)) + type_id_input(*id),
{
    std::hash::Hash::hash(id, h)
}

/// A streaming XXH64 context. Its state is the seed it was made with and the
/// bytes fed to it so far; the digest is a function of those two alone.
#[derive(Clone, Copy)]
pub struct HashAccumulator {
    inner: XxHash64,
}

impl HashAccumulator {
    /// The seed the accumulator was made with.
    pub closed spec fn seed(&self) -> u64 {
        hasher_seed(self.inner)
    }

    /// The bytes fed so far, in order.
    pub closed spec fn fed(&self) -> Seq<u8> {
        hasher_input(self.inner)
    }

    /// The digest that `finish` returns in this state.
    pub open spec fn digest(&self) -> u64 {
        xxh64(self.seed(), self.fed())
    }

    /// An accumulator with the given seed that has been fed nothing.
    pub fn with_seed(seed: u64) -> (acc: Self)
        ensures
            acc.seed() == seed,
            acc.fed() == Seq::<u8>::empty(),
    {
        HashAccumulator { inner: xx_with_seed(seed) }
    }

    /// Feeds `bytes`.
    pub fn write(&mut self, bytes: &[u8])
        requires
            old(self).fed().len() + bytes@.len() <= u64::MAX,
        ensures
            final(self).seed() == old(self).seed(),
            final(self).fed() == old(self).fed() + bytes@,
    {
        xx_write(&mut self.inner, bytes);
    }

    /// Feeds one byte.
    pub fn write_u8(&mut self, byte: u8)
        requires
            old(self).fed().len() < u64::MAX,
        ensures
            final(self).seed() == old(self).seed(),
            final(self).fed() == old(self).fed().push(byte),
    {
        xx_write_u8(&mut self.inner, byte);
    }

    /// Feeds the identity of a type: the bytes that stand for it.
    pub fn write_type_id(&mut self, id: &TypeId)
        requires
            old(self).fed().len() <= FEED_LIMIT,
        ensures
            final(self).seed() == old(self).seed(),
            final(self).fed() == old(self).fed() + type_id_input(*id),
    {
        xx_hash_type_id(&mut self.inner, id);
    }

    /// The digest of what has been fed so far. Feeding may go on afterwards.
    pub fn finish(&self) -> (digest: u64)
        ensures
            digest == self.digest(),
    {
        xx_finish(&self.inner)
    }

    /// How many bytes have been fed so far.
    pub fn total_len(&self) -> (n: u64)
        ensures
            n == self.fed().len(),
    {
        xx_total_len(&self.inner)
    }
}

} // verus!
