//! A stable identifier for the build of the running binary.
//!
//! The identifier is derived by streaming the best available evidence of the
//! build through a 64-bit hash: the build id that the linker embedded or,
//! failing that, the executable image, and in every case a fingerprint of a
//! few type identities. The digest is expanded into 128 bits that carry the
//! fixed variant and version fields of a random UUID.
//!
//! Nothing here touches the file system: the caller hands in the bytes it
//! could read, whole or piece by piece, and `None` for a source it could not.

pub mod hasher;
pub mod identifier;
pub mod selector;
