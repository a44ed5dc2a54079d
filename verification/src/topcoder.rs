//! The Topcoder rating-update policy.
//!
//! One round update runs in phases over an immutable pre-round snapshot:
//! field statistics, pairwise win-probability arguments, rank ratios, the
//! per-player blend, and a final commit. The standard normal CDF and its
//! inverse are the caller's numerical primitives (an external collaborator,
//! like the floating-point operations themselves): between the verified
//! phases the caller evaluates them on the values this module hands out and
//! passes the results back in. Every phase is a pure function of its
//! inputs, so the final beliefs do not depend on how the caller schedules
//! the evaluations.

use vstd::prelude::*;

use crate::fp::F_HALF;
use crate::fp::F_ONE;
use crate::fp::F_ZERO;
use crate::fp::fadd;
use crate::fp::fadd_bits;
use crate::fp::fclamp;
use crate::fp::fdiv;
use crate::fp::fdiv_bits;
use crate::fp::fge;
use crate::fp::fge_bits;
use crate::fp::fhypot;
use crate::fp::fmin;
use crate::fp::fmul;
use crate::fp::fmul_bits;
use crate::fp::fneg;
use crate::fp::fneg_bits;
use crate::fp::fsqrt;
use crate::fp::fsqrt_bits;
use crate::fp::fsub;
use crate::fp::fsub_bits;
use crate::fp::f64_from_int;
use crate::fp::f64_of;
use crate::fp::spec_fclamp;
use crate::fp::spec_fhypot;
use crate::fp::spec_fmin;
use crate::model::ContestRatingParams;
use crate::model::Player;
use crate::model::Rating;
use crate::model::UpdateError;
use crate::standings::ranks_of;
use crate::standings::valid_standings;
use crate::standings::verify_standings;

verus! {

/// Bit pattern of the double 0.6: the default blending weight of a
/// brand-new player.
pub const F_WEIGHT_NOOB: u64 = 0x3FE3_3333_3333_3333;

/// Bit pattern of the double 0.18: the default asymptotic blending weight
/// of a very experienced player.
pub const F_WEIGHT_LIMIT: u64 = 0x3FC7_0A3D_70A3_D70A;

/// Bit pattern of the double 150: the experience-independent part of the
/// rating-movement cap.
pub const F_CAP_FLAT: u64 = 0x4062_C000_0000_0000;

/// Bit pattern of the double 1500: the numerator of the cap term that
/// shrinks with experience.
pub const F_CAP_DECAY: u64 = 0x4097_7000_0000_0000;

/// Bit pattern of the double 0.18: the flat term in the cap normalizer.
pub const F_CAP_NORM_FLAT: u64 = 0x3FC7_0A3D_70A3_D70A;

/// Bit pattern of the double 0.42: the experience-scaled term in the cap
/// normalizer.
pub const F_CAP_NORM_DECAY: u64 = 0x3FDA_E147_AE14_7AE1;

/// Bit pattern of the double 2500: the mean at which the strongest damping
/// of the blend weight sets in.
pub const F_DAMP_HI_AT: u64 = 0x40A3_8800_0000_0000;

/// Bit pattern of the double 0.8: the damping factor above the higher
/// threshold.
pub const F_DAMP_HI: u64 = 0x3FE9_9999_9999_999A;

/// Bit pattern of the double 2000: the mean at which mild damping of the
/// blend weight sets in.
pub const F_DAMP_MID_AT: u64 = 0x409F_4000_0000_0000;

/// Bit pattern of the double 0.9: the damping factor above the lower
/// threshold.
pub const F_DAMP_MID: u64 = 0x3FEC_CCCC_CCCC_CCCD;

/// Bit pattern of the double 1e-10: the clamping epsilon that keeps a rank
/// ratio away from 0, where the inverse normal CDF is undefined.
pub const F_RATIO_MIN: u64 = 0x3DDB_7CDF_D9D7_BDBB;

/// Bit pattern of the largest ratio allowed, 1 minus 1e-10: keeps a rank
/// ratio away from 1, where the inverse normal CDF is undefined.
pub const F_RATIO_MAX: u64 = 0x3FEF_FFFF_FFF2_4190;

/// The Topcoder rating-update policy: two positive doubles (as bit
/// patterns) configure how strongly one contest moves a player's mean,
/// `weight_noob` for a brand-new player decaying toward `weight_limit`
/// with experience. Requires `weight_noob > weight_limit`.
#[derive(Clone, Copy, PartialEq, Eq, Structural, Debug)]
pub struct TopcoderSys {
    pub weight_noob: u64,
    pub weight_limit: u64,
}

impl Default for TopcoderSys {
    /// The published defaults: 0.6 for a brand-new player, 0.18 in the
    /// experienced limit.
    fn default() -> (r: Self)
        ensures
            r == (TopcoderSys { weight_noob: F_WEIGHT_NOOB, weight_limit: F_WEIGHT_LIMIT }),
    {
        TopcoderSys { weight_noob: F_WEIGHT_NOOB, weight_limit: F_WEIGHT_LIMIT }
    }
}

/// One entry of the pre-round snapshot, as plain values: the prior belief,
/// the inclusive tie range, and the number of contests played.
#[derive(Clone, Copy, PartialEq, Eq, Structural, Debug)]
pub struct Entry {
    pub mu: u64,
    pub sig: u64,
    pub lo: usize,
    pub hi: usize,
    pub played: usize,
}

/// The prior belief recorded in a snapshot entry.
pub open spec fn rating_of(e: Entry) -> Rating {
    Rating { mu: e.mu, sig: e.sig }
}

/// The pre-round snapshot of the standings.
pub open spec fn snapshot_seq(s: Seq<(Player, usize, usize)>) -> Seq<Entry> {
    Seq::new(
        s.len(),
        |i: int|
            Entry {
                mu: s[i].0.approx_posterior.mu,
                sig: s[i].0.approx_posterior.sig,
                lo: s[i].1,
                hi: s[i].2,
                played: s[i].0.times_played,
            },
    )
}

/// Copies the pre-round snapshot out of the standings. All later phases
/// read only this snapshot, never a half-updated player.
pub fn snapshot(standings: &Vec<(Player, usize, usize)>) -> (snap: Vec<Entry>)
    ensures
        snap@ == snapshot_seq(standings@),
{
    let mut snap: Vec<Entry> = Vec::new();
    let mut i: usize = 0;
    while i < standings.len()
        invariant
            i <= standings@.len(),
            snap@.len() == i,
            forall|k: int| 0 <= k < i ==> snap@[k] == snapshot_seq(standings@)[k],
        decreases standings@.len() - i,
    {
        let e = &standings[i];
        snap.push(
            Entry {
                mu: e.0.approx_posterior.mu,
                sig: e.0.approx_posterior.sig,
                lo: e.1,
                hi: e.2,
                played: e.0.times_played,
            },
        );
        i = i + 1;
    }
    assert(snap@ =~= snapshot_seq(standings@));
    snap
}

/// Every player has entered at least one contest, counting this one, so
/// the experience-based weight divides by a positive count.
pub open spec fn all_seeded(s: Seq<(Player, usize, usize)>) -> bool {
    forall|i: int| 0 <= i < s.len() ==> (#[trigger] s[i]).0.times_played >= 1
}

/// Why a round update must be rejected, if it must be.
pub open spec fn round_rejection(s: Seq<(Player, usize, usize)>) -> Option<UpdateError> {
    if s.len() == 0 {
        Some(UpdateError::EmptyStandings)
    } else if !valid_standings(ranks_of(s)) {
        Some(UpdateError::InvalidRanks)
    } else if !all_seeded(s) {
        Some(UpdateError::UnseededPlayer)
    } else {
        None
    }
}

/// Decides whether a round update may proceed: the standings must be
/// non-empty, the tie ranges must form a valid ranking, and every player
/// must be seeded with at least one played contest. On rejection the
/// standings are left exactly as they were.
pub fn validate_round(standings: &Vec<(Player, usize, usize)>) -> (r: Result<(), UpdateError>)
    ensures
        r == (match round_rejection(standings@) {
            Some(e) => Result::<(), UpdateError>::Err(e),
            None => Result::<(), UpdateError>::Ok(()),
        }),
{
    let n = standings.len();
    if n == 0 {
        return Err(UpdateError::EmptyStandings);
    }
    if !verify_standings(standings) {
        return Err(UpdateError::InvalidRanks);
    }
    let mut i: usize = 0;
    while i < n
        invariant
            n == standings@.len(),
            n > 0,
            valid_standings(ranks_of(standings@)),
            i <= n,
            forall|k: int| 0 <= k < i ==> (#[trigger] standings@[k]).0.times_played >= 1,
        decreases n - i,
    {
        if standings[i].0.times_played == 0 {
            assert(standings@[i as int].0.times_played == 0);
            assert(!all_seeded(standings@));
            return Err(UpdateError::UnseededPlayer);
        }
        i = i + 1;
    }
    Ok(())
}

/// The running sum (in standings order) of the prior means of the first
/// `k` entries, starting from the double 0.
pub open spec fn sum_mu(s: Seq<Entry>, k: int) -> u64
    decreases k,
{
    if k <= 0 {
        F_ZERO
    } else {
        fadd_bits(sum_mu(s, k - 1), s[k - 1].mu)
    }
}

/// The running sum of the squared prior volatilities of the first `k`
/// entries.
pub open spec fn sum_sig_sq(s: Seq<Entry>, k: int) -> u64
    decreases k,
{
    if k <= 0 {
        F_ZERO
    } else {
        fadd_bits(sum_sig_sq(s, k - 1), fmul_bits(s[k - 1].sig, s[k - 1].sig))
    }
}

/// The running sum of the squared deviations of the first `k` prior means
/// from `avg`.
pub open spec fn sum_sq_dev(s: Seq<Entry>, avg: u64, k: int) -> u64
    decreases k,
{
    if k <= 0 {
        F_ZERO
    } else {
        fadd_bits(
            sum_sq_dev(s, avg, k - 1),
            fmul_bits(fsub_bits(s[k - 1].mu, avg), fsub_bits(s[k - 1].mu, avg)),
        )
    }
}

/// The arithmetic mean of the prior means of the field.
pub open spec fn spec_average_mean(s: Seq<Entry>) -> u64 {
    fdiv_bits(sum_mu(s, s.len() as int), f64_of(s.len()))
}

/// The mean squared volatility of the field plus, for a field of more than
/// one entry, the sample variance (denominator `n - 1`) of the prior means.
pub open spec fn spec_mean_vol_sq(s: Seq<Entry>) -> u64 {
    let nf = f64_of(s.len());
    let base = fdiv_bits(sum_sig_sq(s, s.len() as int), nf);
    if s.len() > 1 {
        fadd_bits(
            base,
            fdiv_bits(sum_sq_dev(s, spec_average_mean(s), s.len() as int), fsub_bits(nf, F_ONE)),
        )
    } else {
        base
    }
}

/// The field scale factor: the root of the mean squared volatility plus
/// (for fields of more than one entry) the spread of the prior means. It
/// scales how strongly a performance surprise moves a rating.
pub open spec fn spec_c_factor(s: Seq<Entry>) -> u64 {
    fsqrt_bits(spec_mean_vol_sq(s))
}

/// Field-wide quantities computed once per contest from the pre-round
/// snapshot and the contest parameters.
#[derive(Clone, Copy, PartialEq, Eq, Structural, Debug)]
pub struct RoundCtx {
    /// The square root of the contest weight.
    pub sqrt_weight: u64,
    /// The field scale factor.
    pub c_factor: u64,
    /// The number of standings entries, as a double.
    pub num_coders: u64,
    /// The contest weight, copied from the parameters.
    pub weight: u64,
    /// The performance ceiling, copied from the parameters.
    pub perf_ceiling: u64,
    /// The policy's asymptotic blending weight.
    pub weight_limit: u64,
    /// The gap between the new-player and asymptotic blending weights.
    pub weight_extra: u64,
}

/// The per-round context that the phases below share.
pub open spec fn spec_round_ctx(
    sys: TopcoderSys,
    params: ContestRatingParams,
    s: Seq<Entry>,
) -> RoundCtx {
    RoundCtx {
        sqrt_weight: fsqrt_bits(params.weight),
        c_factor: spec_c_factor(s),
        num_coders: f64_of(s.len()),
        weight: params.weight,
        perf_ceiling: params.perf_ceiling,
        weight_limit: sys.weight_limit,
        weight_extra: fsub_bits(sys.weight_noob, sys.weight_limit),
    }
}

impl TopcoderSys {
    /// Computes the per-round context: the field statistics over the
    /// pre-round snapshot and the derived contest-wide scale factors.
    pub fn round_context(&self, params: &ContestRatingParams, snap: &Vec<Entry>) -> (ctx: RoundCtx)
        ensures
            ctx == spec_round_ctx(*self, *params, snap@),
    {
        let n = snap.len();
        let nf = f64_from_int(n as u128);
        let mut mu_total: u64 = F_ZERO;
        let mut i: usize = 0;
        while i < n
            invariant
                n == snap@.len(),
                i <= n,
                mu_total == sum_mu(snap@, i as int),
            decreases n - i,
        {
            mu_total = fadd(mu_total, snap[i].mu);
            i = i + 1;
        }
        let avg = fdiv(mu_total, nf);
        let mut sig_sq_total: u64 = F_ZERO;
        let mut i: usize = 0;
        while i < n
            invariant
                n == snap@.len(),
                i <= n,
                sig_sq_total == sum_sig_sq(snap@, i as int),
            decreases n - i,
        {
            sig_sq_total = fadd(sig_sq_total, fmul(snap[i].sig, snap[i].sig));
            i = i + 1;
        }
        let mut mean_vol_sq = fdiv(sig_sq_total, nf);
        if n > 1 {
            let mut dev_total: u64 = F_ZERO;
            let mut i: usize = 0;
            while i < n
                invariant
                    n == snap@.len(),
                    i <= n,
                    avg == spec_average_mean(snap@),
                    dev_total == sum_sq_dev(snap@, avg, i as int),
                decreases n - i,
            {
                dev_total = fadd(dev_total, fmul(fsub(snap[i].mu, avg), fsub(snap[i].mu, avg)));
                i = i + 1;
            }
            mean_vol_sq = fadd(mean_vol_sq, fdiv(dev_total, fsub(nf, F_ONE)));
        }
        RoundCtx {
            sqrt_weight: fsqrt(params.weight),
            c_factor: fsqrt(mean_vol_sq),
            num_coders: nf,
            weight: params.weight,
            perf_ceiling: params.perf_ceiling,
            weight_limit: self.weight_limit,
            weight_extra: fsub(self.weight_noob, self.weight_limit),
        }
    }
}

/// The standardized score difference of `player` over `foe`: the mean
/// difference over the combined uncertainty, scaled by the root of the
/// contest weight. Its standard normal CDF is the modelled probability
/// that `player` outperforms `foe`.
pub open spec fn spec_win_probability_z(sqrt_weight: u64, player: Rating, foe: Rating) -> u64 {
    fmul_bits(
        sqrt_weight,
        fdiv_bits(fsub_bits(player.mu, foe.mu), spec_fhypot(player.sig, foe.sig)),
    )
}

impl TopcoderSys {
    /// Computes the argument whose standard normal CDF is the modelled
    /// probability that `player` outperforms `foe`; evaluating the CDF is
    /// the caller's numerical primitive.
    pub fn win_probability_z(&self, sqrt_weight: u64, player: &Rating, foe: &Rating) -> (z: u64)
        ensures
            z == spec_win_probability_z(sqrt_weight, *player, *foe),
    {
        fmul(sqrt_weight, fdiv(fsub(player.mu, foe.mu), fhypot(player.sig, foe.sig)))
    }

    /// Computes the whole table of pairwise win-probability arguments: row
    /// `i`, column `j` holds the argument for the probability that entry
    /// `j` outranks entry `i`. The caller evaluates the standard normal
    /// CDF on each and hands the table back to [`rank_ratios`].
    pub fn win_probability_args(&self, ctx: &RoundCtx, snap: &Vec<Entry>) -> (z: Vec<Vec<u64>>)
        ensures
            z@.len() == snap@.len(),
            forall|i: int| 0 <= i < snap@.len() ==> (#[trigger] z@[i])@.len() == snap@.len(),
            forall|i: int, j: int|
                0 <= i < snap@.len() && 0 <= j < snap@.len() ==> (#[trigger] z@[i]@[j])
                    == spec_win_probability_z(
                    ctx.sqrt_weight,
                    rating_of(snap@[j]),
                    rating_of(snap@[i]),
                ),
    {
        let n = snap.len();
        let mut z: Vec<Vec<u64>> = Vec::new();
        let mut i: usize = 0;
        while i < n
            invariant
                n == snap@.len(),
                i <= n,
                z@.len() == i,
                forall|k: int| 0 <= k < i ==> (#[trigger] z@[k])@.len() == n,
                forall|k: int, j: int|
                    0 <= k < i && 0 <= j < n ==> (#[trigger] z@[k]@[j]) == spec_win_probability_z(
                        ctx.sqrt_weight,
                        rating_of(snap@[j]),
                        rating_of(snap@[k]),
                    ),
            decreases n - i,
        {
            let me = Rating { mu: snap[i].mu, sig: snap[i].sig };
            let mut row: Vec<u64> = Vec::new();
            let mut j: usize = 0;
            while j < n
                invariant
                    n == snap@.len(),
                    i < n,
                    j <= n,
                    row@.len() == j,
                    me == rating_of(snap@[i as int]),
                    forall|t: int|
                        0 <= t < j ==> (#[trigger] row@[t]) == spec_win_probability_z(
                            ctx.sqrt_weight,
                            rating_of(snap@[t]),
                            rating_of(snap@[i as int]),
                        ),
                decreases n - j,
            {
                let foe = Rating { mu: snap[j].mu, sig: snap[j].sig };
                row.push(self.win_probability_z(ctx.sqrt_weight, &foe, &me));
                j = j + 1;
            }
            z.push(row);
            i = i + 1;
        }
        z
    }
}

/// The running sum of the first `k` values of a sequence of doubles,
/// starting from the double 0.
pub open spec fn fsum(s: Seq<u64>, k: int) -> u64
    decreases k,
{
    if k <= 0 {
        F_ZERO
    } else {
        fadd_bits(fsum(s, k - 1), s[k - 1])
    }
}

/// A rank ratio clamped into the open unit interval: ratios at or beyond 0
/// or 1 would make the inverse normal CDF undefined, so they are pulled to
/// the documented epsilon 1e-10 away from the boundary.
pub open spec fn spec_guard_ratio(r: u64) -> u64 {
    if fge_bits(F_RATIO_MIN, r) {
        F_RATIO_MIN
    } else if fge_bits(r, F_RATIO_MAX) {
        F_RATIO_MAX
    } else {
        r
    }
}

/// Clamps a rank ratio into the open unit interval (see
/// [`spec_guard_ratio`]).
pub fn guard_ratio(r: u64) -> (g: u64)
    ensures
        g == spec_guard_ratio(r),
{
    if fge(F_RATIO_MIN, r) {
        F_RATIO_MIN
    } else if fge(r, F_RATIO_MAX) {
        F_RATIO_MAX
    } else {
        r
    }
}

/// The midpoint of an entry's tie block under the 1-indexed convention:
/// half of `1 + lo + hi`.
pub open spec fn spec_actual_rank(e: Entry) -> u64 {
    fmul_bits(F_HALF, f64_of((1 + e.lo + e.hi) as nat))
}

/// The expected rank of entry `i`: the sum, over the whole field, of the
/// probabilities (supplied by the caller's CDF) that each foe outranks the
/// entry. The self-term contributes one half, part of the published
/// formula's normalization.
pub open spec fn spec_expected_rank(probs: Seq<Seq<u64>>, i: int) -> u64 {
    fsum(probs[i], probs[i].len() as int)
}

/// The guarded expected- and actual-rank ratios of entry `i`.
pub open spec fn spec_rank_ratios(ctx: RoundCtx, s: Seq<Entry>, probs: Seq<Seq<u64>>, i: int) -> (
    u64,
    u64,
) {
    (
        spec_guard_ratio(fdiv_bits(spec_expected_rank(probs, i), ctx.num_coders)),
        spec_guard_ratio(fdiv_bits(spec_actual_rank(s[i]), ctx.num_coders)),
    )
}

impl TopcoderSys {
    /// Reduces the win-probability table to each entry's expected rank and
    /// tie-midpoint rank, both as guarded fractions of the field size. The
    /// caller evaluates the inverse standard normal CDF on each ratio and
    /// hands the results to [`TopcoderSys::apply_performances`].
    pub fn rank_ratios(&self, ctx: &RoundCtx, snap: &Vec<Entry>, probs: &Vec<Vec<u64>>) -> (rr: Vec<
        (u64, u64),
    >)
        requires
            probs@.len() == snap@.len(),
            forall|i: int| 0 <= i < probs@.len() ==> (#[trigger] probs@[i])@.len() == snap@.len(),
        ensures
            rr@.len() == snap@.len(),
            forall|i: int|
                0 <= i < snap@.len() ==> (#[trigger] rr@[i]) == spec_rank_ratios(
                    *ctx,
                    snap@,
                    probs@.map_values(|row: Vec<u64>| row@),
                    i,
                ),
    {
        let ghost pseq = probs@.map_values(|row: Vec<u64>| row@);
        let n = snap.len();
        let mut rr: Vec<(u64, u64)> = Vec::new();
        let mut i: usize = 0;
        while i < n
            invariant
                n == snap@.len(),
                probs@.len() == n,
                pseq == probs@.map_values(|row: Vec<u64>| row@),
                forall|k: int| 0 <= k < n ==> (#[trigger] probs@[k])@.len() == n,
                i <= n,
                rr@.len() == i,
                forall|k: int|
                    0 <= k < i ==> (#[trigger] rr@[k]) == spec_rank_ratios(*ctx, snap@, pseq, k),
            decreases n - i,
        {
            let row = &probs[i];
            let mut ex_rank: u64 = F_ZERO;
            let mut j: usize = 0;
            while j < n
                invariant
                    n == snap@.len(),
                    probs@.len() == n,
                    pseq == probs@.map_values(|row: Vec<u64>| row@),
                    i < n,
                    row == probs@[i as int],
                    row@.len() == n,
                    j <= n,
                    ex_rank == fsum(pseq[i as int], j as int),
                decreases n - j,
            {
                ex_rank = fadd(ex_rank, row[j]);
                j = j + 1;
            }
            let e = &snap[i];
            let ac_doubled: u128 = 1u128 + (e.lo as u128) + (e.hi as u128);
            let ac_rank = fmul(F_HALF, f64_from_int(ac_doubled));
            assert(ac_rank == spec_actual_rank(snap@[i as int]));
            rr.push(
                (
                    guard_ratio(fdiv(ex_rank, ctx.num_coders)),
                    guard_ratio(fdiv(ac_rank, ctx.num_coders)),
                ),
            );
            i = i + 1;
        }
        rr
    }
}

/// The experience-dependent base blending weight: the asymptotic weight
/// plus the new-player surplus divided by the number of contests played
/// (as a double).
pub open spec fn spec_blend_base(weight_limit: u64, weight_extra: u64, num_contests: u64) -> u64 {
    fadd_bits(weight_limit, fdiv_bits(weight_extra, num_contests))
}

/// Computes the experience-dependent base blending weight;
/// `num_contests` is the contest count as a double.
pub fn blend_base(weight_limit: u64, weight_extra: u64, num_contests: u64) -> (r: u64)
    ensures
        r == spec_blend_base(weight_limit, weight_extra, num_contests),
{
    fadd(weight_limit, fdiv(weight_extra, num_contests))
}

/// The maximum rating movement this round allows a player of the given
/// experience: a flat term plus a term that shrinks with experience,
/// scaled by the contest weight and the base blend weight, normalized by
/// the published decay denominator.
pub open spec fn spec_swing_cap(sqrt_weight: u64, base: u64, num_contests: u64) -> u64 {
    fmul_bits(
        fadd_bits(F_CAP_FLAT, fdiv_bits(F_CAP_DECAY, fadd_bits(num_contests, F_ONE))),
        fdiv_bits(
            fmul_bits(sqrt_weight, base),
            fadd_bits(F_CAP_NORM_FLAT, fdiv_bits(F_CAP_NORM_DECAY, num_contests)),
        ),
    )
}

/// Computes the maximum rating movement for one player this round;
/// `num_contests` is the contest count as a double.
pub fn swing_cap(sqrt_weight: u64, base: u64, num_contests: u64) -> (r: u64)
    ensures
        r == spec_swing_cap(sqrt_weight, base, num_contests),
{
    fmul(
        fadd(F_CAP_FLAT, fdiv(F_CAP_DECAY, fadd(num_contests, F_ONE))),
        fdiv(
            fmul(sqrt_weight, base),
            fadd(F_CAP_NORM_FLAT, fdiv(F_CAP_NORM_DECAY, num_contests)),
        ),
    )
}

/// The performance this contest is inferred to show: the prior mean moved
/// by the field scale times the surprise (actual minus expected
/// performance), capped above by the ceiling. `inv_ex` and `inv_ac` are
/// the inverse-CDF values of the entry's rank ratios; performances are
/// their negations, since a smaller rank is a better finish.
pub open spec fn spec_performance(ctx: RoundCtx, e: Entry, inv_ex: u64, inv_ac: u64) -> u64 {
    spec_fmin(
        fadd_bits(
            e.mu,
            fmul_bits(ctx.c_factor, fsub_bits(fneg_bits(inv_ac), fneg_bits(inv_ex))),
        ),
        ctx.perf_ceiling,
    )
}

/// The blend weight after converting the base into a precision weight and
/// damping it for highly rated players.
pub open spec fn spec_blend_weight(ctx: RoundCtx, e: Entry) -> u64 {
    let base = spec_blend_base(ctx.weight_limit, ctx.weight_extra, f64_of(e.played as nat));
    let w = fmul_bits(base, fdiv_bits(ctx.weight, fsub_bits(F_ONE, base)));
    if fge_bits(e.mu, F_DAMP_HI_AT) {
        fmul_bits(w, F_DAMP_HI)
    } else if fge_bits(e.mu, F_DAMP_MID_AT) {
        fmul_bits(w, F_DAMP_MID)
    } else {
        w
    }
}

/// The cap on this entry's rating movement.
pub open spec fn spec_entry_cap(ctx: RoundCtx, e: Entry) -> u64 {
    spec_swing_cap(
        ctx.sqrt_weight,
        spec_blend_base(ctx.weight_limit, ctx.weight_extra, f64_of(e.played as nat)),
        f64_of(e.played as nat),
    )
}

/// The precision-weighted average of the prior mean and the inferred
/// performance, before the cap is applied.
pub open spec fn spec_candidate_mean(ctx: RoundCtx, e: Entry, inv_ex: u64, inv_ac: u64) -> u64 {
    let w = spec_blend_weight(ctx, e);
    fdiv_bits(
        fadd_bits(e.mu, fmul_bits(w, spec_performance(ctx, e, inv_ex, inv_ac))),
        fadd_bits(F_ONE, w),
    )
}

/// The committed mean: the candidate clamped to within the cap of the old
/// mean.
pub open spec fn spec_new_mean(ctx: RoundCtx, e: Entry, inv_ex: u64, inv_ac: u64) -> u64 {
    let cap = spec_entry_cap(ctx, e);
    spec_fclamp(
        spec_candidate_mean(ctx, e, inv_ex, inv_ac),
        fsub_bits(e.mu, cap),
        fadd_bits(e.mu, cap),
    )
}

/// The committed uncertainty: the squared pre-clamp adjustment regularized
/// by the blend weight, plus the shrunk prior variance, under a square
/// root.
pub open spec fn spec_new_sig(ctx: RoundCtx, e: Entry, inv_ex: u64, inv_ac: u64) -> u64 {
    let w = spec_blend_weight(ctx, e);
    let d = fsub_bits(spec_candidate_mean(ctx, e, inv_ex, inv_ac), e.mu);
    fsqrt_bits(
        fadd_bits(
            fdiv_bits(fmul_bits(d, d), w),
            fdiv_bits(fmul_bits(e.sig, e.sig), fadd_bits(F_ONE, w)),
        ),
    )
}

/// One entry's full update: the new belief and the performance to commit
/// to its history, as a function of the entry, the shared round context,
/// and the inverse-CDF values of its rank ratios alone.
pub open spec fn spec_player_update(ctx: RoundCtx, e: Entry, inv_ex: u64, inv_ac: u64) -> (
    Rating,
    u64,
) {
    (
        Rating {
            mu: spec_new_mean(ctx, e, inv_ex, inv_ac),
            sig: spec_new_sig(ctx, e, inv_ex, inv_ac),
        },
        spec_performance(ctx, e, inv_ex, inv_ac),
    )
}

impl TopcoderSys {
    /// Computes every entry's new belief and inferred performance from the
    /// snapshot, the round context, and the inverse-CDF values of the rank
    /// ratios (`inv_cdfs[i]` pairs the expected-rank value with the
    /// actual-rank value).
    pub fn apply_performances(
        &self,
        ctx: &RoundCtx,
        snap: &Vec<Entry>,
        inv_cdfs: &Vec<(u64, u64)>,
    ) -> (out: Vec<(Rating, u64)>)
        requires
            inv_cdfs@.len() == snap@.len(),
        ensures
            out@.len() == snap@.len(),
            forall|i: int|
                0 <= i < snap@.len() ==> (#[trigger] out@[i]) == spec_player_update(
                    *ctx,
                    snap@[i],
                    inv_cdfs@[i].0,
                    inv_cdfs@[i].1,
                ),
    {
        let n = snap.len();
        let mut out: Vec<(Rating, u64)> = Vec::new();
        let mut i: usize = 0;
        while i < n
            invariant
                n == snap@.len(),
                inv_cdfs@.len() == n,
                i <= n,
                out@.len() == i,
                forall|k: int|
                    0 <= k < i ==> (#[trigger] out@[k]) == spec_player_update(
                        *ctx,
                        snap@[k],
                        inv_cdfs@[k].0,
                        inv_cdfs@[k].1,
                    ),
            decreases n - i,
        {
            let e = snap[i];
            let (inv_ex, inv_ac) = inv_cdfs[i];
            let ex_perf = fneg(inv_ex);
            let ac_perf = fneg(inv_ac);
            let perf = fmin(
                fadd(e.mu, fmul(ctx.c_factor, fsub(ac_perf, ex_perf))),
                ctx.perf_ceiling,
            );
            let nc = f64_from_int(e.played as u128);
            let base = blend_base(ctx.weight_limit, ctx.weight_extra, nc);
            let cap = swing_cap(ctx.sqrt_weight, base, nc);
            let mut w = fmul(base, fdiv(ctx.weight, fsub(F_ONE, base)));
            if fge(e.mu, F_DAMP_HI_AT) {
                w = fmul(w, F_DAMP_HI);
            } else if fge(e.mu, F_DAMP_MID_AT) {
                w = fmul(w, F_DAMP_MID);
            }
            assert(w == spec_blend_weight(*ctx, snap@[i as int]));
            let candidate = fdiv(fadd(e.mu, fmul(w, perf)), fadd(F_ONE, w));
            let new_mu = fclamp(candidate, fsub(e.mu, cap), fadd(e.mu, cap));
            let d = fsub(candidate, e.mu);
            let new_sig = fsqrt(
                fadd(fdiv(fmul(d, d), w), fdiv(fmul(e.sig, e.sig), fadd(F_ONE, w))),
            );
            out.push((Rating { mu: new_mu, sig: new_sig }, perf));
            i = i + 1;
        }
        out
    }
}

/// Commits computed results to the standings: each player's belief is
/// replaced wholesale with its new value, the inferred performance is
/// appended to its history, and its contest count increments by exactly
/// one. Nothing else is touched, and no entry's computation could have
/// observed another's committed value: the results were computed from the
/// immutable snapshot alone.
pub fn commit_round(standings: &mut Vec<(Player, usize, usize)>, results: &Vec<(Rating, u64)>)
    requires
        old(standings)@.len() == results@.len(),
        forall|i: int|
            0 <= i < old(standings)@.len() ==> (#[trigger] old(standings)@[i]).0.times_played
                < usize::MAX,
    ensures
        final(standings)@.len() == old(standings)@.len(),
        forall|i: int|
            0 <= i < old(standings)@.len() ==> {
                let pre = old(standings)@[i];
                let post = #[trigger] final(standings)@[i];
                &&& post.0.approx_posterior == results@[i].0
                &&& post.0.times_played == pre.0.times_played + 1
                &&& post.0.performance_history@ == pre.0.performance_history@.push(results@[i].1)
                &&& post.1 == pre.1
                &&& post.2 == pre.2
            },
{
    let n = standings.len();
    let mut i: usize = 0;
    while i < n
        invariant
            n == standings@.len(),
            n == old(standings)@.len(),
            n == results@.len(),
            i <= n,
            forall|k: int|
                i <= k < n ==> (#[trigger] standings@[k]) == old(standings)@[k],
            forall|k: int|
                0 <= k < n ==> (#[trigger] old(standings)@[k]).0.times_played < usize::MAX,
            forall|k: int|
                0 <= k < i ==> {
                    let pre = old(standings)@[k];
                    let post = #[trigger] standings@[k];
                    &&& post.0.approx_posterior == results@[k].0
                    &&& post.0.times_played == pre.0.times_played + 1
                    &&& post.0.performance_history@ == pre.0.performance_history@.push(
                        results@[k].1,
                    )
                    &&& post.1 == pre.1
                    &&& post.2 == pre.2
                },
        decreases n - i,
    {
        let (new_rating, new_perf) = results[i];
        assert(standings@[i as int] == old(standings)@[i as int]);
        assert(old(standings)@[i as int].0.times_played < usize::MAX);
        let entry = &mut standings[i];
        entry.0.update_rating(new_rating, new_perf);
        i = i + 1;
    }
}

/// The standard normal cumulative distribution function and its inverse:
/// the numerical primitives the policy treats as black boxes (an external
/// collaborator). Both take and return binary64 bit patterns; nothing is
/// assumed of the values they produce, so everything proved of a round
/// update holds whatever a provider returns.
pub trait NormalCdf {
    /// The standard normal CDF at the double `x`.
    fn cdf(&self, x: u64) -> u64;

    /// The inverse of the standard normal CDF at the double `p`, for `p`
    /// inside the open unit interval.
    fn cdf_inv(&self, p: u64) -> u64;
}

/// What a completed round guarantees for entry `i`: for some pair of
/// inverse-CDF values (the ones the primitive produced for the entry's
/// guarded rank ratios), the committed belief and history extension are
/// exactly the published formula's update of the snapshot entry.
pub open spec fn entry_committed(
    ctx: RoundCtx,
    snap: Seq<Entry>,
    pre: (Player, usize, usize),
    post: (Player, usize, usize),
    i: int,
) -> bool {
    exists|inv_ex: u64, inv_ac: u64|
        {
            let up = #[trigger] spec_player_update(ctx, snap[i], inv_ex, inv_ac);
            &&& post.0.approx_posterior == up.0
            &&& post.0.performance_history@ == pre.0.performance_history@.push(up.1)
            &&& post.0.times_played == pre.0.times_played + 1
            &&& post.1 == pre.1
            &&& post.2 == pre.2
        }
}

impl TopcoderSys {
    /// One full round update, the policy's single operation: rejects
    /// standings that violate the caller contract (leaving them untouched),
    /// otherwise computes every player's new belief from the frozen
    /// pre-round snapshot and the supplied normal-distribution primitives,
    /// and commits all of them afterwards. The phases never interleave: no
    /// entry's computation can observe another's committed belief.
    pub fn round_update<P: NormalCdf>(
        &self,
        primitives: &P,
        params: &ContestRatingParams,
        standings: &mut Vec<(Player, usize, usize)>,
    ) -> (r: Result<(), UpdateError>)
        requires
            forall|i: int|
                0 <= i < old(standings)@.len() ==> (#[trigger] old(
                    standings,
                )@[i]).0.times_played < usize::MAX,
        ensures
            r == (match round_rejection(old(standings)@) {
                Some(e) => Result::<(), UpdateError>::Err(e),
                None => Result::<(), UpdateError>::Ok(()),
            }),
            r is Err ==> final(standings)@ == old(standings)@,
            r is Ok ==> {
                let snap = snapshot_seq(old(standings)@);
                let ctx = spec_round_ctx(*self, *params, snap);
                &&& final(standings)@.len() == old(standings)@.len()
                &&& forall|i: int|
                    0 <= i < old(standings)@.len() ==> entry_committed(
                        ctx,
                        snap,
                        old(standings)@[i],
                        #[trigger] final(standings)@[i],
                        i,
                    )
            },
    {
        let valid = validate_round(standings);
        if let Err(e) = valid {
            return Err(e);
        }
        let snap = snapshot(standings);
        let ctx = self.round_context(params, &snap);
        let args = self.win_probability_args(&ctx, &snap);
        let n = snap.len();
        let mut probs: Vec<Vec<u64>> = Vec::new();
        let mut i: usize = 0;
        while i < n
            invariant
                n == snap@.len(),
                args@.len() == n,
                forall|k: int| 0 <= k < n ==> (#[trigger] args@[k])@.len() == n,
                i <= n,
                probs@.len() == i,
                forall|k: int| 0 <= k < i ==> (#[trigger] probs@[k])@.len() == n,
            decreases n - i,
        {
            let row = &args[i];
            let mut prow: Vec<u64> = Vec::new();
            let mut j: usize = 0;
            while j < n
                invariant
                    row@.len() == n,
                    j <= n,
                    prow@.len() == j,
                decreases n - j,
            {
                prow.push(primitives.cdf(row[j]));
                j = j + 1;
            }
            probs.push(prow);
            i = i + 1;
        }
        let ratios = self.rank_ratios(&ctx, &snap, &probs);
        let mut inv_cdfs: Vec<(u64, u64)> = Vec::new();
        let mut i: usize = 0;
        while i < n
            invariant
                ratios@.len() == n,
                i <= n,
                inv_cdfs@.len() == i,
            decreases n - i,
        {
            let (ex, ac) = ratios[i];
            inv_cdfs.push((primitives.cdf_inv(ex), primitives.cdf_inv(ac)));
            i = i + 1;
        }
        let results = self.apply_performances(&ctx, &snap, &inv_cdfs);
        commit_round(standings, &results);
        proof {
            assert forall|i: int| 0 <= i < old(standings)@.len() implies entry_committed(
                spec_round_ctx(*self, *params, snapshot_seq(old(standings)@)),
                snapshot_seq(old(standings)@),
                old(standings)@[i],
                #[trigger] standings@[i],
                i,
            ) by {
                let ctxg = spec_round_ctx(*self, *params, snapshot_seq(old(standings)@));
                let snapg = snapshot_seq(old(standings)@);
                let up = spec_player_update(ctxg, snapg[i], inv_cdfs@[i].0, inv_cdfs@[i].1);
                assert(results@[i] == up);
            }
        }
        Ok(())
    }
}

/// The cap and the pre-clamp candidate pin the committed mean exactly:
/// whatever the numerical primitives returned, the new mean is the
/// candidate clamped to within the entry's cap of its old mean.
pub proof fn lemma_mean_movement_clamped(ctx: RoundCtx, e: Entry, inv_ex: u64, inv_ac: u64)
    ensures
        spec_player_update(ctx, e, inv_ex, inv_ac).0.mu == spec_fclamp(
            spec_candidate_mean(ctx, e, inv_ex, inv_ac),
            fsub_bits(e.mu, spec_entry_cap(ctx, e)),
            fadd_bits(e.mu, spec_entry_cap(ctx, e)),
        ),
{
}

/// The performance committed to a player's history never exceeds the
/// contest's ceiling: it is exactly the smaller of the inferred
/// performance and `perf_ceiling`.
pub proof fn lemma_performance_capped(ctx: RoundCtx, e: Entry, inv_ex: u64, inv_ac: u64)
    ensures
        spec_player_update(ctx, e, inv_ex, inv_ac).1 == spec_fmin(
            fadd_bits(
                e.mu,
                fmul_bits(ctx.c_factor, fsub_bits(fneg_bits(inv_ac), fneg_bits(inv_ex))),
            ),
            ctx.perf_ceiling,
        ),
{
}

/// For a field of a single entry the sample-variance term is skipped: the
/// field scale is the root of the entry's own squared volatility (summed
/// from zero and divided by the field size of one).
pub proof fn lemma_c_factor_single(s: Seq<Entry>)
    requires
        s.len() == 1,
    ensures
        spec_c_factor(s) == fsqrt_bits(
            fdiv_bits(fadd_bits(F_ZERO, fmul_bits(s[0].sig, s[0].sig)), f64_of(1)),
        ),
{
    assert(sum_sig_sq(s, 1) == fadd_bits(sum_sig_sq(s, 0), fmul_bits(s[0].sig, s[0].sig)));
}

/// Determinism: the whole update is a pure function of the snapshot, the
/// parameters, and the numerical-primitive values, so re-running it on an
/// identical snapshot yields identical results whatever the scheduling of
/// the per-entry computations.
pub proof fn lemma_update_deterministic(
    sys1: TopcoderSys,
    sys2: TopcoderSys,
    params1: ContestRatingParams,
    params2: ContestRatingParams,
    s1: Seq<Entry>,
    s2: Seq<Entry>,
    i1: int,
    i2: int,
    inv1: (u64, u64),
    inv2: (u64, u64),
)
    requires
        sys1 == sys2,
        params1 == params2,
        s1 == s2,
        0 <= i1 < s1.len(),
        i1 == i2,
        inv1 == inv2,
    ensures
        spec_round_ctx(sys1, params1, s1) == spec_round_ctx(sys2, params2, s2),
        spec_player_update(spec_round_ctx(sys1, params1, s1), s1[i1], inv1.0, inv1.1)
            == spec_player_update(spec_round_ctx(sys2, params2, s2), s2[i2], inv2.0, inv2.1),
{
}

/// Tied entries with identical priors receive identical updates: the
/// per-entry computation reads nothing of an entry but its snapshot
/// values, so two equal entries given equal primitive values update
/// equally (their actual ranks already coincide by construction).
pub proof fn lemma_tied_entries_equal(
    ctx: RoundCtx,
    s: Seq<Entry>,
    probs: Seq<Seq<u64>>,
    i: int,
    j: int,
)
    requires
        0 <= i < s.len(),
        0 <= j < s.len(),
        i < probs.len(),
        j < probs.len(),
        s[i] == s[j],
        probs[i] == probs[j],
    ensures
        spec_rank_ratios(ctx, s, probs, i) == spec_rank_ratios(ctx, s, probs, j),
        forall|iex: u64, iac: u64|
            spec_player_update(ctx, s[i], iex, iac) == #[trigger] spec_player_update(
                ctx,
                s[j],
                iex,
                iac,
            ),
{
}

/// Two equal entries are handed elementwise-equal win-probability
/// arguments: each argument reads only the two priors involved.
pub proof fn lemma_tied_entries_same_args(sw: u64, s: Seq<Entry>, i: int, j: int, k: int)
    requires
        0 <= i < s.len(),
        0 <= j < s.len(),
        0 <= k < s.len(),
        s[i] == s[j],
    ensures
        spec_win_probability_z(sw, rating_of(s[k]), rating_of(s[i])) == spec_win_probability_z(
            sw,
            rating_of(s[k]),
            rating_of(s[j]),
        ),
{
}

} // verus!
