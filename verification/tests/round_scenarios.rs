//! End-to-end round updates: the verified phases composed with the
//! standard-normal primitives, on concrete scenarios.

use rayon::iter::IntoParallelRefIterator;
use rayon::iter::ParallelIterator;

use topcoder_rating::model::{ContestRatingParams, Player, Rating, UpdateError};
use topcoder_rating::topcoder::{self, TopcoderSys};

fn cdf(x: f64) -> f64 {
    0.5 * statrs::function::erf::erfc(-x / std::f64::consts::SQRT_2)
}

fn cdf_inv(p: f64) -> f64 {
    -(std::f64::consts::SQRT_2 * statrs::function::erf::erfc_inv(2.0 * p))
}

fn run_round(
    sys: &TopcoderSys,
    params: ContestRatingParams,
    standings: &mut Vec<(Player, usize, usize)>,
    parallel: bool,
) -> Result<(), UpdateError> {
    topcoder::validate_round(standings)?;
    let snap = topcoder::snapshot(standings);
    let ctx = sys.round_context(&params, &snap);
    let args = sys.win_probability_args(&ctx, &snap);
    let prob_row = |row: &Vec<u64>| -> Vec<u64> {
        row.iter().map(|&z| cdf(f64::from_bits(z)).to_bits()).collect()
    };
    let probs: Vec<Vec<u64>> = if parallel {
        args.par_iter().map(prob_row).collect()
    } else {
        args.iter().map(prob_row).collect()
    };
    let ratios = sys.rank_ratios(&ctx, &snap, &probs);
    let inv_pair = |pair: &(u64, u64)| -> (u64, u64) {
        (
            cdf_inv(f64::from_bits(pair.0)).to_bits(),
            cdf_inv(f64::from_bits(pair.1)).to_bits(),
        )
    };
    let inv_cdfs: Vec<(u64, u64)> = if parallel {
        ratios.par_iter().map(inv_pair).collect()
    } else {
        ratios.iter().map(inv_pair).collect()
    };
    let results = sys.apply_performances(&ctx, &snap, &inv_cdfs);
    topcoder::commit_round(standings, &results);
    Ok(())
}

struct Primitives;

impl topcoder::NormalCdf for Primitives {
    fn cdf(&self, x: u64) -> u64 {
        cdf(f64::from_bits(x)).to_bits()
    }

    fn cdf_inv(&self, p: u64) -> u64 {
        cdf_inv(f64::from_bits(p)).to_bits()
    }
}

fn player(mu: f64, sig: f64, played: usize) -> Player {
    Player {
        approx_posterior: Rating { mu: mu.to_bits(), sig: sig.to_bits() },
        times_played: played,
        performance_history: vec![],
    }
}

fn params(weight: f64, perf_ceiling: f64) -> ContestRatingParams {
    ContestRatingParams { weight: weight.to_bits(), perf_ceiling: perf_ceiling.to_bits() }
}

fn mu_of(p: &Player) -> f64 {
    f64::from_bits(p.approx_posterior.mu)
}

fn sig_of(p: &Player) -> f64 {
    f64::from_bits(p.approx_posterior.sig)
}

#[test]
fn symmetry_equal_priors() {
    let sys = TopcoderSys::default();
    let mut standings = vec![
        (player(1500.0, 200.0, 1), 0usize, 0usize),
        (player(1500.0, 200.0, 1), 1usize, 1usize),
    ];
    run_round(&sys, params(1.0, 6000.0), &mut standings, false).unwrap();
    let a = mu_of(&standings[0].0);
    let b = mu_of(&standings[1].0);
    assert!(a > 1500.0, "winner must gain: {a}");
    assert!(b < 1500.0, "loser must lose: {b}");
    assert!(
        ((a - 1500.0) - (1500.0 - b)).abs() <= 1e-9,
        "gain and loss must mirror: {a} {b}"
    );
}

#[test]
fn tie_identical_results() {
    let sys = TopcoderSys::default();
    let mut standings = vec![
        (player(1500.0, 200.0, 1), 0usize, 1usize),
        (player(1500.0, 200.0, 1), 0usize, 1usize),
    ];
    run_round(&sys, params(1.0, 6000.0), &mut standings, false).unwrap();
    assert_eq!(
        standings[0].0.approx_posterior.mu,
        standings[1].0.approx_posterior.mu
    );
    assert_eq!(
        standings[0].0.approx_posterior.sig,
        standings[1].0.approx_posterior.sig
    );
    assert_eq!(standings[0].0.performance_history, standings[1].0.performance_history);
}

#[test]
fn determinism_across_interleavings() {
    let sys = TopcoderSys::default();
    let base = vec![
        (player(1712.3, 190.5, 4), 0usize, 0usize),
        (player(1500.0, 350.0, 1), 1usize, 2usize),
        (player(1430.9, 120.25, 9), 1usize, 2usize),
        (player(2600.0, 80.0, 30), 3usize, 3usize),
    ];
    let p = params(0.75, 4000.0);
    let mut sequential = base.clone();
    run_round(&sys, p, &mut sequential, false).unwrap();
    let mut parallel_a = base.clone();
    run_round(&sys, p, &mut parallel_a, true).unwrap();
    let mut parallel_b = base.clone();
    run_round(&sys, p, &mut parallel_b, true).unwrap();
    for i in 0..base.len() {
        assert_eq!(
            sequential[i].0.approx_posterior.mu,
            parallel_a[i].0.approx_posterior.mu
        );
        assert_eq!(
            sequential[i].0.approx_posterior.sig,
            parallel_a[i].0.approx_posterior.sig
        );
        assert_eq!(sequential[i].0.performance_history, parallel_a[i].0.performance_history);
        assert_eq!(
            parallel_a[i].0.approx_posterior.mu,
            parallel_b[i].0.approx_posterior.mu
        );
        assert_eq!(
            parallel_a[i].0.approx_posterior.sig,
            parallel_b[i].0.approx_posterior.sig
        );
    }
}

#[test]
fn stddev_positive_and_finite() {
    let sys = TopcoderSys::default();
    let mut standings = vec![
        (player(2712.0, 45.0, 60), 0usize, 0usize),
        (player(1500.0, 350.0, 1), 1usize, 1usize),
        (player(1501.5, 349.5, 2), 2usize, 3usize),
        (player(888.0, 500.0, 1), 2usize, 3usize),
        (player(120.0, 20.0, 100), 4usize, 4usize),
    ];
    run_round(&sys, params(0.5, 3000.0), &mut standings, false).unwrap();
    for (p, _, _) in &standings {
        let sig = sig_of(p);
        assert!(sig.is_finite(), "new stddev must be finite: {sig}");
        assert!(sig > 0.0, "new stddev must be positive: {sig}");
        assert_eq!(p.performance_history.len(), 1);
    }
}

#[test]
fn mean_movement_hits_cap_exactly() {
    // a huge surprise against huge prior uncertainty: both movements are
    // clamped to exactly the cap, here (150 + 1500/2) * 0.6 / 0.6 = 900
    let sys = TopcoderSys::default();
    let mut standings = vec![
        (player(1500.0, 3000.0, 1), 0usize, 0usize),
        (player(1500.0, 3000.0, 1), 1usize, 1usize),
    ];
    run_round(&sys, params(1.0, 6000.0), &mut standings, false).unwrap();
    let cap = (150.0 + 1500.0 / 2.0) * (1.0 * (0.18 + 0.42 / 1.0) / (0.18 + 0.42 / 1.0));
    assert_eq!(cap, 900.0);
    assert_eq!(mu_of(&standings[0].0), 1500.0 + cap);
    assert_eq!(mu_of(&standings[1].0), 1500.0 - cap);
}

#[test]
fn mean_movement_within_cap() {
    let sys = TopcoderSys::default();
    let mut standings = vec![
        (player(1500.0, 200.0, 3), 0usize, 0usize),
        (player(1450.0, 180.0, 7), 1usize, 1usize),
        (player(1820.0, 150.0, 12), 2usize, 2usize),
    ];
    let weight = 0.9;
    let old_mu = [1500.0, 1450.0, 1820.0];
    run_round(&sys, params(weight, 6000.0), &mut standings, false).unwrap();
    for i in 0..standings.len() {
        let p = &standings[i].0;
        let played = (p.times_played - 1) as f64;
        let base = 0.18 + (0.6 - 0.18) / played;
        let cap = (150.0 + 1500.0 / (played + 1.0))
            * (weight.sqrt() * base / (0.18 + 0.42 / played));
        let moved = (mu_of(p) - old_mu[i]).abs();
        assert!(moved <= cap + 1e-9, "movement within cap: {moved} vs {cap}");
    }
}

#[test]
fn performance_capped_by_ceiling() {
    let sys = TopcoderSys::default();
    let ceiling = 2000.0;
    let mut standings = vec![
        (player(1500.0, 3000.0, 1), 0usize, 0usize),
        (player(1500.0, 3000.0, 1), 1usize, 1usize),
    ];
    run_round(&sys, params(1.0, ceiling), &mut standings, false).unwrap();
    let perf_winner = f64::from_bits(standings[0].0.performance_history[0]);
    let perf_loser = f64::from_bits(standings[1].0.performance_history[0]);
    assert_eq!(perf_winner, ceiling, "an extreme upset is capped at the ceiling");
    assert!(perf_loser <= ceiling);
    assert!(perf_loser < 1500.0, "the loser's inferred performance is below the prior");
}

#[test]
fn single_entry_field() {
    let sys = TopcoderSys::default();
    let snap = vec![topcoder::Entry {
        mu: 1500.0f64.to_bits(),
        sig: 200.0f64.to_bits(),
        lo: 0,
        hi: 0,
        played: 1,
    }];
    let ctx = sys.round_context(&params(1.0, 6000.0), &snap);
    // the sample-variance term is skipped: the field scale is exactly the
    // single player's own prior stddev
    assert_eq!(f64::from_bits(ctx.c_factor), 200.0);

    let mut standings = vec![(player(1500.0, 200.0, 1), 0usize, 0usize)];
    run_round(&sys, params(1.0, 6000.0), &mut standings, false).unwrap();
    // expected and actual rank coincide, so the inferred performance is the
    // prior mean itself and the mean does not move
    assert_eq!(f64::from_bits(standings[0].0.performance_history[0]), 1500.0);
    assert_eq!(mu_of(&standings[0].0), 1500.0);
    assert!(sig_of(&standings[0].0) > 0.0);
}

#[test]
fn high_rating_damping_shrinks_movement() {
    let sys = TopcoderSys::default();
    let mut gains = Vec::new();
    for mu in [1500.0, 2100.0, 2600.0] {
        let mut standings = vec![
            (player(mu, 200.0, 5), 0usize, 0usize),
            (player(mu, 200.0, 5), 1usize, 1usize),
        ];
        run_round(&sys, params(1.0, 9000.0), &mut standings, false).unwrap();
        gains.push(mu_of(&standings[0].0) - mu);
    }
    assert!(gains[0] > gains[1], "mild damping above 2000: {gains:?}");
    assert!(gains[1] > gains[2], "strong damping above 2500: {gains:?}");
}

#[test]
fn round_update_matches_phase_composition() {
    let sys = TopcoderSys::default();
    let base = vec![
        (player(1712.3, 190.5, 4), 0usize, 1usize),
        (player(1500.0, 350.0, 1), 0usize, 1usize),
        (player(1430.9, 120.25, 9), 2usize, 2usize),
    ];
    let p = params(0.6, 4000.0);
    let mut by_phases = base.clone();
    run_round(&sys, p, &mut by_phases, true).unwrap();
    let mut by_update = base.clone();
    sys.round_update(&Primitives, &p, &mut by_update).unwrap();
    for i in 0..base.len() {
        assert_eq!(
            by_phases[i].0.approx_posterior.mu,
            by_update[i].0.approx_posterior.mu
        );
        assert_eq!(
            by_phases[i].0.approx_posterior.sig,
            by_update[i].0.approx_posterior.sig
        );
        assert_eq!(by_phases[i].0.performance_history, by_update[i].0.performance_history);
        assert_eq!(by_phases[i].0.times_played, by_update[i].0.times_played);
    }
}

#[test]
fn round_update_rejects_and_preserves() {
    let sys = TopcoderSys::default();
    let mut standings = vec![
        (player(1500.0, 200.0, 1), 0usize, 1usize),
        (player(1400.0, 100.0, 2), 1usize, 1usize),
    ];
    assert_eq!(
        sys.round_update(&Primitives, &params(1.0, 6000.0), &mut standings),
        Err(UpdateError::InvalidRanks)
    );
    assert_eq!(standings[0].0.approx_posterior.mu, 1500.0f64.to_bits());
    assert!(standings[1].0.performance_history.is_empty());
}

#[test]
fn err_empty_standings() {
    let sys = TopcoderSys::default();
    let mut standings: Vec<(Player, usize, usize)> = vec![];
    assert_eq!(
        run_round(&sys, params(1.0, 6000.0), &mut standings, false),
        Err(UpdateError::EmptyStandings)
    );
    assert!(standings.is_empty());
}

#[test]
fn err_invalid_ranks_leaves_standings_untouched() {
    let sys = TopcoderSys::default();
    let mut standings = vec![
        (player(1500.0, 200.0, 1), 0usize, 1usize),
        (player(1400.0, 100.0, 2), 1usize, 1usize),
    ];
    assert_eq!(
        run_round(&sys, params(1.0, 6000.0), &mut standings, false),
        Err(UpdateError::InvalidRanks)
    );
    assert_eq!(standings[0].0.approx_posterior.mu, 1500.0f64.to_bits());
    assert_eq!(standings[0].0.times_played, 1);
    assert!(standings[0].0.performance_history.is_empty());
    assert_eq!(standings[1].0.approx_posterior.mu, 1400.0f64.to_bits());
    assert_eq!(standings[1].0.times_played, 2);
    assert!(standings[1].0.performance_history.is_empty());
}

#[test]
fn err_unseeded_player() {
    let sys = TopcoderSys::default();
    let mut standings = vec![
        (player(1500.0, 200.0, 1), 0usize, 0usize),
        (player(1400.0, 100.0, 0), 1usize, 1usize),
    ];
    assert_eq!(
        run_round(&sys, params(1.0, 6000.0), &mut standings, false),
        Err(UpdateError::UnseededPlayer)
    );
    assert_eq!(standings[1].0.times_played, 0);
    assert!(standings[1].0.performance_history.is_empty());
}

#[test]
fn history_and_count_commit() {
    let sys = TopcoderSys::default();
    let mut standings = vec![
        (player(1500.0, 200.0, 3), 0usize, 0usize),
        (player(1600.0, 150.0, 8), 1usize, 1usize),
    ];
    standings[0].0.performance_history = vec![1400.0f64.to_bits()];
    run_round(&sys, params(1.0, 6000.0), &mut standings, false).unwrap();
    assert_eq!(standings[0].0.times_played, 4);
    assert_eq!(standings[1].0.times_played, 9);
    assert_eq!(standings[0].0.performance_history.len(), 2);
    assert_eq!(standings[0].0.performance_history[0], 1400.0f64.to_bits());
    assert_eq!(standings[1].0.performance_history.len(), 1);
    // players live on across contests: a second round extends the same state
    let (a, _, _) = standings.remove(0);
    let (b, _, _) = standings.remove(0);
    let mut second = vec![(b, 0usize, 0usize), (a, 1usize, 1usize)];
    run_round(&sys, params(0.5, 6000.0), &mut second, false).unwrap();
    assert_eq!(second[0].0.times_played, 10);
    assert_eq!(second[1].0.times_played, 5);
    assert_eq!(second[1].0.performance_history.len(), 3);
}

#[test]
fn degenerate_beliefs_do_not_panic() {
    // infinite and NaN beliefs produce unspecified numbers, never a panic
    // or a half-committed round
    let sys = TopcoderSys::default();
    let mut standings = vec![
        (player(f64::INFINITY, f64::NAN, 1), 0usize, 0usize),
        (player(f64::NEG_INFINITY, 0.0, 1), 1usize, 1usize),
        (player(1500.0, 200.0, 1), 2usize, 2usize),
    ];
    assert_eq!(run_round(&sys, params(1.0, 6000.0), &mut standings, false), Ok(()));
    for (p, _, _) in &standings {
        assert_eq!(p.times_played, 2);
        assert_eq!(p.performance_history.len(), 1);
    }
}
