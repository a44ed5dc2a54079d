//! The data model: skill beliefs, players, and per-contest parameters.
//!
//! Every real-valued quantity is an IEEE-754 binary64 value carried as its
//! raw 64-bit pattern, as everywhere in this crate (see [`crate::fp`]).

use vstd::prelude::*;

verus! {

/// A Gaussian estimate of a participant's strength: skill is believed to be
/// distributed as `Normal(mu, sig^2)`. Both fields are binary64 bit
/// patterns; a meaningful belief has `sig > 0`.
#[derive(Clone, Copy, PartialEq, Eq, Structural, Debug)]
pub struct Rating {
    pub mu: u64,
    pub sig: u64,
}

/// A participant's accumulated state: the current skill belief, how many
/// rated contests the participant has entered, and the inferred performance
/// of each past contest (binary64 bit patterns, in contest order).
///
/// A rating-update policy is the only code that changes a `Player`: it
/// replaces `approx_posterior` wholesale, appends one performance value,
/// and increments `times_played` by exactly one per update. A player must
/// be seeded with `times_played >= 1` before its first update.
#[derive(Clone, Debug)]
pub struct Player {
    pub approx_posterior: Rating,
    pub times_played: usize,
    pub performance_history: Vec<u64>,
}

impl Player {
    /// Commits one contest result: the belief is replaced wholesale (never
    /// mutated field by field), the inferred performance is appended to the
    /// history, and the contest count increments by exactly one.
    pub fn update_rating(&mut self, rating: Rating, performance: u64)
        requires
            old(self).times_played < usize::MAX,
        ensures
            final(self).approx_posterior == rating,
            final(self).times_played == old(self).times_played + 1,
            final(self).performance_history@ == old(self).performance_history@.push(performance),
    {
        self.approx_posterior = rating;
        self.performance_history.push(performance);
        self.times_played = self.times_played + 1;
    }
}

/// Per-contest tunables, immutable for the duration of one update: the
/// contest-importance weight (a double in `(0, 1]`) and the ceiling placed
/// on any single inferred performance. Both are binary64 bit patterns.
#[derive(Clone, Copy, PartialEq, Eq, Structural, Debug)]
pub struct ContestRatingParams {
    pub weight: u64,
    pub perf_ceiling: u64,
}

/// Why a round update was rejected before any player was touched.
#[derive(Clone, Copy, PartialEq, Eq, Structural, Debug)]
pub enum UpdateError {
    /// The standings hold no entries at all.
    EmptyStandings,
    /// The tie ranges of the standings do not describe a valid ranking.
    InvalidRanks,
    /// Some player would divide by zero in the experience-based weight:
    /// every player must be seeded with at least one played contest.
    UnseededPlayer,
}

} // verus!
