//! A verified implementation of the Topcoder skill-rating update.
//!
//! The crate models a participant's skill as a Gaussian belief and, after a
//! contest, moves every participant's belief according to the published
//! Topcoder formula: expected rank from pairwise win probabilities, inferred
//! performance from the inverse normal distribution, an experience-weighted
//! blend, and a capped rating movement.
//!
//! All numbers of the algorithm are IEEE-754 doubles carried as `u64` bit
//! patterns (see [`fp`]), so that the exact dataflow of every update is
//! stated and verified while the arithmetic itself is performed by outside
//! IEEE-754 implementations behind trusted wrappers. The standard normal
//! CDF and its inverse are the caller's numerical primitives (see
//! [`topcoder::NormalCdf`]).

pub mod fp;
pub mod model;
pub mod standings;
pub mod topcoder;
