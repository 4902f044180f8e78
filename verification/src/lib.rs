//! A non-cryptographic 64-bit hash family for hash-based containers.
//!
//! The library turns an arbitrary-length byte sequence plus a pair of 64-bit
//! seeds into a well-distributed 64-bit digest.  All mixing is built from a
//! single 64x64 -> 128-bit multiply primitive; byte runs are dispatched to one
//! of three size-class algorithms chosen purely by length, and fixed-width
//! numeric writes are batched through a 128-bit sponge buffer.
//!
//! Every state transition is specified exactly: the contracts pin each write
//! and the finalizer down to the mathematical mixing functions in
//! [`mixing`], [`bytes`] and [`hasher`].

pub mod bytes;
pub mod hasher;
pub mod laws;
pub mod mixing;
pub mod seed;

pub use hasher::MuseHasher;
pub use seed::FixedState;
pub use seed::RandomState;
