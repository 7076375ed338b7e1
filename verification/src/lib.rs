//! Scoring core for fixed-dimension feature vectors.
//!
//! Vector components and magnitudes are carried as 32-bit words, each the
//! IEEE-754 single-precision encoding of one value. The library decides
//! everything that does not need arithmetic on those values: from which
//! buffers an item can be built and what its magnitude is, which kernel may
//! run on a pair of operands, how serialised vectors are decoded, and how a
//! document's vector is looked up in, fetched for and published to the cache
//! that the scorers of one factory share.

pub mod cache;
pub mod item;
pub mod kernel;
pub mod scorer;
pub mod serialized;
pub mod unaligned;
