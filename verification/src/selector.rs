//! The ordered chain of identity sources, and the calculation that runs it.
//!
//! Two primary sources are tried in turn, the build id that the platform
//! embeds in the binary and then the bytes of the executable itself, and the
//! first that succeeds is the only one fed. A fingerprint of a few type
//! identities follows in every case, so that the calculation never fails.

use crate::hasher::{type_id_input, HashAccumulator, FEED_LIMIT};
use crate::identifier::{
    has_fixed_fields, identifier_in, identifies, lemma_identified_has_fixed_fields,
    BuildIdentifier,
};
use std::any::TypeId;
use vstd::prelude::*;

verus! {

/// Why a primary identity source gave nothing. Neither is ever surfaced by
/// the calculation: each only moves it on to the next source.
#[derive(Clone, Copy, Debug, PartialEq, Eq, Structural)]
pub enum SourceError {
    /// The platform exposes no embedded build id, or the binary has none.
    MetadataUnavailable,
    /// The executable image could not be had.
    ExecutableUnreadable,
}

/// The seed of every calculation.
pub const SEED: u64 = 0;

/// What a primary source feeds to an accumulator that has taken `fed` bytes
/// already: its bytes, where it has any and they fit under `FEED_LIMIT`; else
/// nothing, and the source counts as failed.
pub open spec fn feeds(source: Option<&[u8]>, fed: nat) -> Option<Seq<u8>> {
    match source {
        Some(bytes) => if fed + bytes@.len() <= FEED_LIMIT {
            Some(bytes@)
        } else {
            None
        },
        None => None,
    }
}

/// What the primary sources feed to a fresh accumulator: the build id where
/// that source succeeds, else the image where that one does, else nothing.
pub open spec fn primary_input(build_id: Option<&[u8]>, image: Option<&[u8]>) -> Seq<u8> {
    match feeds(build_id, 0) {
        Some(bytes) => bytes,
        None => match feeds(image, 0) {
            Some(bytes) => bytes,
            None => Seq::empty(),
        },
    }
}

/// What four type identities feed, in their order.
pub open spec fn fingerprint(unit: TypeId, byte: TypeId, first: TypeId, second: TypeId) -> Seq<
    u8,
> {
    type_id_input(unit) + type_id_input(byte) + type_id_input(first) + type_id_input(second)
}

/// The input `fed` after the identity `id` has been fed: its bytes are
/// appended where they fit under `FEED_LIMIT`, and left out where not.
pub open spec fn with_identity(fed: Seq<u8>, id: TypeId) -> Seq<u8> {
    if fed.len() + type_id_input(id).len() <= FEED_LIMIT {
        fed + type_id_input(id)
    } else {
        fed
    }
}

/// The input `fed` after the four identities of a fingerprint have been fed,
/// one by one and in their order.
pub open spec fn with_fingerprint(
    fed: Seq<u8>,
    unit: TypeId,
    byte: TypeId,
    first: TypeId,
    second: TypeId,
) -> Seq<u8> {
    with_identity(with_identity(with_identity(with_identity(fed, unit), byte), first), second)
}

/// What a calculation hashes, given the four identities that the compiler
/// chose: the primary input, then the fingerprint.
pub open spec fn hashed_input(
    build_id: Option<&[u8]>,
    image: Option<&[u8]>,
    unit: TypeId,
    byte: TypeId,
    first: TypeId,
    second: TypeId,
) -> Seq<u8> {
    with_fingerprint(primary_input(build_id, image), unit, byte, first, second)
}

/// `id` is a result of the calculation on these sources: the identifier of
/// the seeded hash of the primary input followed by the fingerprint of some
/// four identities, in one of the two byte orders.
pub open spec fn is_build_identifier(
    id: Seq<u8>,
    build_id: Option<&[u8]>,
    image: Option<&[u8]>,
) -> bool {
    exists|unit: TypeId, byte: TypeId, first: TypeId, second: TypeId|
        identifies(id, SEED, #[trigger] hashed_input(build_id, image, unit, byte, first, second))
}

/// `TypeId::of`, for the type of the value handed in.
#[verifier::external_body]
fn type_id_of<T: 'static>(_value: &T) -> (id: TypeId) {
    TypeId::of::<T>()
}

/// Feeds the whole of `source`, if it is there and fits.
fn feed(hasher: HashAccumulator, source: Option<&[u8]>) -> (r: Option<HashAccumulator>)
    ensures
        match feeds(source, hasher.fed().len()) {
            Some(bytes) => r matches Some(h) && h.seed() == hasher.seed() && h.fed()
                == hasher.fed() + bytes,
            None => r is None,
        },
{
    match source {
        None => None,
        Some(bytes) => {
            let used: u64 = hasher.total_len();
            if used > FEED_LIMIT || bytes.len() as u64 > FEED_LIMIT - used {
                None
            } else {
                let mut hasher = hasher;
                hasher.write(bytes);
                Some(hasher)
            }
        },
    }
}

/// The first source: the build id that the linker embedded in the binary, as
/// the platform hands it out; `None` where the platform has no such thing or
/// the binary carries none. The whole id is fed to `hasher`; one too long
/// for the accumulator to count (see `feeds`) is treated as absent.
pub fn from_header(hasher: HashAccumulator, build_id: Option<&[u8]>) -> (r: Result<
    HashAccumulator,
    SourceError,
>)
    ensures
        match feeds(build_id, hasher.fed().len()) {
            Some(bytes) => r matches Ok(h) && h.seed() == hasher.seed() && h.fed()
                == hasher.fed() + bytes,
            None => r matches Err(e) && e == SourceError::MetadataUnavailable,
        },
{
    match feed(hasher, build_id) {
        Some(h) => Ok(h),
        None => Err(SourceError::MetadataUnavailable),
    }
}

/// The second source: the bytes of the running executable; `None` where
/// there is no such file or it could not be read. The whole image is fed to
/// `hasher`; one too long for the accumulator to count (see `feeds`) is
/// treated as unreadable.
pub fn from_exe(hasher: HashAccumulator, image: Option<&[u8]>) -> (r: Result<
    HashAccumulator,
    SourceError,
>)
    ensures
        match feeds(image, hasher.fed().len()) {
            Some(bytes) => r matches Ok(h) && h.seed() == hasher.seed() && h.fed()
                == hasher.fed() + bytes,
            None => r matches Err(e) && e == SourceError::ExecutableUnreadable,
        },
{
    match feed(hasher, image) {
        Some(h) => Ok(h),
        None => Err(SourceError::ExecutableUnreadable),
    }
}

/// The last source, which never fails: the identities of the unit type, of
/// `u8`, and of two closures are fed to `hasher`, in that order. What was fed
/// before stays in front. Which identity a type has is the compiler's
/// choice, so the contract speaks of some four identities.
pub fn from_type_id(hasher: HashAccumulator) -> (r: Result<HashAccumulator, SourceError>)
    ensures
        r matches Ok(h) && h.seed() == hasher.seed() && hasher.fed().is_prefix_of(h.fed()) && (
        hasher.fed().len() <= FEED_LIMIT ==> h.fed().len() <= FEED_LIMIT),
        r matches Ok(h) && exists|unit: TypeId, byte: TypeId, first: TypeId, second: TypeId|
            h.fed() == #[trigger] with_fingerprint(hasher.fed(), unit, byte, first, second),
{
    let unit = type_id_of(&());
    let byte = type_id_of(&0u8);
    let a = |x: ()| x;
    let first = type_id_of(&a);
    let b = |x: u8| x;
    let second = type_id_of(&b);
    Ok(feed_identities(hasher, &unit, &byte, &first, &second))
}

/// Feeds one identity to `hasher`. An identity whose bytes would take the
/// accumulator beyond `FEED_LIMIT` is left out.
pub fn feed_identity(hasher: HashAccumulator, id: &TypeId) -> (h: HashAccumulator)
    ensures
        h.seed() == hasher.seed(),
        h.fed() == with_identity(hasher.fed(), *id),
{
    if hasher.total_len() > FEED_LIMIT {
        return hasher;
    }
    let mut fed = hasher;
    fed.write_type_id(id);
    if fed.total_len() <= FEED_LIMIT {
        fed
    } else {
        hasher
    }
}

/// Feeds the four identities of a fingerprint to `hasher`, in the order in
/// which they are given.
pub fn feed_identities(
    hasher: HashAccumulator,
    unit: &TypeId,
    byte: &TypeId,
    first: &TypeId,
    second: &TypeId,
) -> (h: HashAccumulator)
    ensures
        h.seed() == hasher.seed(),
        h.fed() == with_fingerprint(hasher.fed(), *unit, *byte, *first, *second),
        hasher.fed().is_prefix_of(h.fed()),
        hasher.fed().len() <= FEED_LIMIT ==> h.fed().len() <= FEED_LIMIT,
{
    let h = feed_identity(hasher, unit);
    let h = feed_identity(h, byte);
    let h = feed_identity(h, first);
    let h = feed_identity(h, second);
    h
}

/// The executable image while it is read piece by piece: the accumulator of
/// a calculation, fed what has been read so far.
#[derive(Clone, Copy)]
pub struct ImageStream {
    acc: HashAccumulator,
}

impl View for ImageStream {
    type V = Seq<u8>;

    /// The bytes of the image streamed so far.
    closed spec fn view(&self) -> Seq<u8> {
        self.acc.fed()
    }
}

impl ImageStream {
    #[verifier::type_invariant]
    spec fn seeded_and_in_bounds(self) -> bool {
        self.acc.seed() == SEED && self.acc.fed().len() <= FEED_LIMIT
    }

    /// A stream into which nothing has been read yet.
    pub fn new() -> (stream: ImageStream)
        ensures
            stream@ == Seq::<u8>::empty(),
    {
        ImageStream { acc: HashAccumulator::with_seed(SEED) }
    }

    /// Takes the next piece of the image. Where the piece does not fit under
    /// `FEED_LIMIT` the image counts as unreadable.
    pub fn push(self, piece: &[u8]) -> (r: Result<ImageStream, SourceError>)
        ensures
            match feeds(Some(piece), self@.len()) {
                Some(bytes) => r matches Ok(stream) && stream@ == self@ + bytes,
                None => r matches Err(e) && e == SourceError::ExecutableUnreadable,
            },
    {
        proof {
            use_type_invariant(&self);
        }
        match from_exe(self.acc, Some(piece)) {
            Ok(acc) => Ok(ImageStream { acc }),
            Err(e) => Err(e),
        }
    }
}

/// What the primary sources feed where the image was streamed: the build id
/// where that source succeeds, else the image where there is one, else
/// nothing.
pub open spec fn primary_input_streamed(build_id: Option<&[u8]>, image: Option<ImageStream>) -> Seq<
    u8,
> {
    match feeds(build_id, 0) {
        Some(bytes) => bytes,
        None => match image {
            Some(stream) => stream@,
            None => Seq::empty(),
        },
    }
}

/// The calculation on an image that was streamed: as `calculate`, with the
/// whole of what the stream took in the place of the image. `image` is `None`
/// where the executable could not be opened or a read failed.
pub fn calculate_streamed(build_id: Option<&[u8]>, image: Option<ImageStream>) -> (id:
    BuildIdentifier)
    ensures
        has_fixed_fields(id@),
        exists|unit: TypeId, byte: TypeId, first: TypeId, second: TypeId|
            identifies(
                id@,
                SEED,
                #[trigger] with_fingerprint(
                    primary_input_streamed(build_id, image),
                    unit,
                    byte,
                    first,
                    second,
                ),
            ),
{
    let fresh = HashAccumulator::with_seed(SEED);
    let fed = match from_header(fresh, build_id) {
        Ok(h) => h,
        Err(_) => match image {
            Some(stream) => {
                proof {
                    use_type_invariant(&stream);
                }
                stream.acc
            },
            None => fresh,
        },
    };
    assert(fed.fed() =~= primary_input_streamed(build_id, image));
    let full = match from_type_id(fed) {
        Ok(h) => h,
        Err(_) => fed,
    };
    let id = BuildIdentifier::from_hasher(full);
    proof {
        let (unit, byte, first, second) = choose|
            unit: TypeId,
            byte: TypeId,
            first: TypeId,
            second: TypeId,
        |
            full.fed() == #[trigger] with_fingerprint(fed.fed(), unit, byte, first, second);
        assert(identifies(
            id@,
            SEED,
            with_fingerprint(primary_input_streamed(build_id, image), unit, byte, first, second),
        ));
    }
    id
}

/// Streaming changes nothing: where a stream holds what the image source
/// feeds, the streamed calculation hashes what the calculation on the whole
/// image hashes.
pub proof fn lemma_streamed_is_whole(
    build_id: Option<&[u8]>,
    image: Option<&[u8]>,
    stream: Option<ImageStream>,
)
    requires
        match feeds(image, 0) {
            Some(bytes) => stream matches Some(s) && s@ == bytes,
            None => stream is None,
        },
    ensures
        primary_input_streamed(build_id, stream) == primary_input(build_id, image),
{
}

/// Calculates the identifier: a fresh accumulator is fed the first primary
/// source that succeeds, then the fingerprint, always, and is expanded.
///
/// `build_id` is the platform's embedded build id and `image` the bytes of
/// the running executable, each `None` where it could not be had. There is
/// no input on which the calculation fails.
pub fn calculate(build_id: Option<&[u8]>, image: Option<&[u8]>) -> (id: BuildIdentifier)
    ensures
        is_build_identifier(id@, build_id, image),
        has_fixed_fields(id@),
{
    let stream = match image {
        Some(bytes) => match ImageStream::new().push(bytes) {
            Ok(stream) => Some(stream),
            Err(_) => None,
        },
        None => None,
    };
    let id = calculate_streamed(build_id, stream);
    proof {
        lemma_streamed_is_whole(build_id, image, stream);
        let (unit, byte, first, second) = choose|
            unit: TypeId,
            byte: TypeId,
            first: TypeId,
            second: TypeId,
        |
            identifies(
                id@,
                SEED,
                #[trigger] with_fingerprint(
                    primary_input_streamed(build_id, stream),
                    unit,
                    byte,
                    first,
                    second,
                ),
            );
        assert(identifies(id@, SEED, hashed_input(build_id, image, unit, byte, first, second)));
    }
    id
}

/// Whichever source a calculation drew on, its result is sixteen bytes with
/// the variant and version fields of a random UUID.
pub proof fn lemma_calculated_is_well_formed(
    id: Seq<u8>,
    build_id: Option<&[u8]>,
    image: Option<&[u8]>,
)
    requires
        is_build_identifier(id, build_id, image),
    ensures
        has_fixed_fields(id),
{
    let (unit, byte, first, second) = choose|
        unit: TypeId,
        byte: TypeId,
        first: TypeId,
        second: TypeId,
    |
        identifies(id, SEED, #[trigger] hashed_input(build_id, image, unit, byte, first, second));
    lemma_identified_has_fixed_fields(
        id,
        SEED,
        hashed_input(build_id, image, unit, byte, first, second),
    );
}

/// A build id that can be fed hides the image: the calculation is then the
/// same with any image, or none.
pub proof fn lemma_build_id_wins(
    id: Seq<u8>,
    build_id: Option<&[u8]>,
    image: Option<&[u8]>,
    other: Option<&[u8]>,
)
    requires
        feeds(build_id, 0) is Some,
        is_build_identifier(id, build_id, image),
    ensures
        is_build_identifier(id, build_id, other),
{
    let (unit, byte, first, second) = choose|
        unit: TypeId,
        byte: TypeId,
        first: TypeId,
        second: TypeId,
    |
        identifies(id, SEED, #[trigger] hashed_input(build_id, image, unit, byte, first, second));
    assert(hashed_input(build_id, image, unit, byte, first, second) == hashed_input(
        build_id,
        other,
        unit,
        byte,
        first,
        second,
    ));
}

/// Where the whole fingerprint fits under `FEED_LIMIT`, all of it is fed:
/// what is hashed is the earlier input followed by the four identities.
pub proof fn lemma_fingerprint_is_appended(
    fed: Seq<u8>,
    unit: TypeId,
    byte: TypeId,
    first: TypeId,
    second: TypeId,
)
    requires
        fed.len() + fingerprint(unit, byte, first, second).len() <= FEED_LIMIT,
    ensures
        with_fingerprint(fed, unit, byte, first, second) == fed + fingerprint(
            unit,
            byte,
            first,
            second,
        ),
{
    assert(with_fingerprint(fed, unit, byte, first, second) =~= fed + fingerprint(
        unit,
        byte,
        first,
        second,
    ));
}

/// The sources, the four identities and the byte order fix the identifier:
/// two results of the calculation that agree in these are the same bytes.
pub proof fn lemma_calculation_is_determined(
    a: Seq<u8>,
    b: Seq<u8>,
    build_id: Option<&[u8]>,
    image: Option<&[u8]>,
    unit: TypeId,
    byte: TypeId,
    first: TypeId,
    second: TypeId,
    little: bool,
)
    requires
        a == identifier_in(
            SEED,
            hashed_input(build_id, image, unit, byte, first, second),
            little,
        ),
        b == identifier_in(
            SEED,
            hashed_input(build_id, image, unit, byte, first, second),
            little,
        ),
    ensures
        a == b,
        is_build_identifier(a, build_id, image),
{
    assert(identifies(a, SEED, hashed_input(build_id, image, unit, byte, first, second)));
}

} // verus!
