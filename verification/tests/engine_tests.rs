use ackley_mc::engine::{McResult, McState};
use ackley_mc::params::{ConfigError, Params};
use ackley_mc::report::csv_rows;
use rand::{Rng, SeedableRng};
use rand_chacha::ChaCha8Rng;

/// The Ackley objective: with A = 20, B = 0.2, C = 2*pi,
/// y = -A*exp(-B*sqrt(mean(x_i^2))) - exp(mean(cos(C*x_i))) + A + e.
fn ackley(x: &[f64]) -> f64 {
    let a: f64 = 20.0;
    let b: f64 = 0.2;
    let c: f64 = 2.0 * std::f64::consts::PI;
    let n = x.len() as f64;
    let mut square_sum: f64 = 0.0;
    let mut cosine_sum: f64 = 0.0;
    for xi in x {
        square_sum += xi * xi;
        cosine_sum += (c * xi).cos();
    }
    -a * (-b * (square_sum / n).sqrt()).exp() - (cosine_sum / n).exp() + a + std::f64::consts::E
}

fn make_params(
    t0: f64,
    t1: f64,
    n_step: u64,
    x0: &[f64],
    delta: f64,
    seed: u64,
) -> Result<Params, ConfigError> {
    let bits: Vec<u64> = x0.iter().map(|v| v.to_bits()).collect();
    Params::new(t0.to_bits(), t1.to_bits(), n_step, bits, delta.to_bits(), seed)
}

/// Drives one full run through the engine, handing it the floating-point
/// work step by step in the fixed draw order: coordinate index first, then
/// the perturbation draw, then (only for a worsening trial) the acceptance
/// draw.  Also returns the best energy after each step.
fn run(p: &Params) -> (McResult, Vec<u64>) {
    let mut rng = ChaCha8Rng::seed_from_u64(p.seed);
    let x0: Vec<f64> = p.x_ini.iter().map(|b| f64::from_bits(*b)).collect();
    let e0 = ackley(&x0);
    let mut state = McState::new(p, e0.to_bits());

    let t0 = f64::from_bits(p.ini_temp);
    let t1 = f64::from_bits(p.final_temp);
    let c_mult = (1.0 / (p.n_step as f64) * (t1 / t0).ln()).exp();
    let x_delta = f64::from_bits(p.x_delta);

    let mut best_trace: Vec<u64> = Vec::new();
    for _ in 0..p.n_step {
        let idim = state.propose_index(&mut rng);
        let u: f64 = rng.gen_range(0.0..1.0);
        let step_size = x_delta * (2.0 * u - 1.0);
        let trial_coord = f64::from_bits(state.x_cur[idim]) + step_size;

        let mut x_trial: Vec<f64> = state.x_cur.iter().map(|b| f64::from_bits(*b)).collect();
        x_trial[idim] = trial_coord;
        let e_trial = ackley(&x_trial);

        let energy = f64::from_bits(state.energy);
        if e_trial <= energy {
            state.step(idim, trial_coord.to_bits(), e_trial.to_bits(), None);
        } else {
            let draw: f64 = rng.gen_range(0.0..1.0);
            let prob = ((energy - e_trial) / f64::from_bits(state.temperature)).exp();
            state.step(
                idim,
                trial_coord.to_bits(),
                e_trial.to_bits(),
                Some((draw.to_bits(), prob.to_bits())),
            );
        }
        let next_temp = f64::from_bits(state.temperature) * c_mult;
        state.update_temperature(next_temp.to_bits());
        best_trace.push(state.e_best);
    }
    (state.into_result(), best_trace)
}

#[test]
fn test_ackley_atzero_3d() {
    let res = ackley(&[0.0, 0.0, 0.0]);
    assert!((res - 0.0).abs() <= 0.0001);
}

#[test]
fn test_ackley_atzero_many_dims() {
    for n in 1..9 {
        let x = vec![0.0; n];
        assert!(ackley(&x).abs() <= 1e-4);
    }
}

#[test]
fn test_run_deterministic() {
    let p1 = make_params(0.2, 0.05, 2000, &[-1.5, 0.5, 1.0], 0.5, 42).unwrap();
    let p2 = make_params(0.2, 0.05, 2000, &[-1.5, 0.5, 1.0], 0.5, 42).unwrap();
    let (r1, trace1) = run(&p1);
    let (r2, trace2) = run(&p2);
    assert_eq!(r1, r2);
    assert_eq!(trace1, trace2);
}

#[test]
fn test_trajectory_lengths() {
    let p = make_params(0.2, 0.05, 777, &[1.0, -2.0], 0.4, 9).unwrap();
    let (r, _) = run(&p);
    assert_eq!(r.n_steps, 777);
    assert_eq!(r.x_vals.len(), 778);
    assert_eq!(r.e_vals.len(), 778);
}

#[test]
fn test_best_is_first_minimum() {
    let p = make_params(0.3, 0.3, 3000, &[-1.5, 0.5, 1.0], 0.5, 11).unwrap();
    let (r, _) = run(&p);
    let energies: Vec<f64> = r.e_vals.iter().map(|b| f64::from_bits(*b)).collect();
    let min = energies.iter().cloned().fold(f64::INFINITY, f64::min);
    assert_eq!(f64::from_bits(r.e_best), min);
    let first = energies.iter().position(|e| *e == min).unwrap();
    assert_eq!(r.e_vals[first], r.e_best);
    assert_eq!(r.x_vals[first], r.x_best);
}

#[test]
fn test_accepted_steps_strictly_increasing() {
    let p = make_params(0.3, 0.1, 4000, &[2.0, -1.0], 0.5, 23).unwrap();
    let (r, _) = run(&p);
    assert!(!r.accepted_steps.is_empty());
    for w in r.accepted_steps.windows(2) {
        assert!(w[0] < w[1]);
    }
    assert!(*r.accepted_steps.last().unwrap() < r.n_steps);
}

#[test]
fn test_single_coordinate_moves() {
    let p = make_params(0.3, 0.1, 1500, &[2.0, -1.0, 0.5, 3.0], 0.5, 37).unwrap();
    let (r, _) = run(&p);
    for w in r.x_vals.windows(2) {
        let differing = w[0].iter().zip(w[1].iter()).filter(|(a, b)| a != b).count();
        assert!(differing <= 1);
    }
}

#[test]
fn test_best_energy_non_increasing() {
    let p = make_params(0.4, 0.05, 5000, &[-1.5, 0.5, 1.0], 0.5, 5).unwrap();
    let (r, trace) = run(&p);
    let mut prev = f64::INFINITY;
    for b in &trace {
        let e = f64::from_bits(*b);
        assert!(e <= prev);
        prev = e;
    }
    assert_eq!(*trace.last().unwrap(), r.e_best);
}

#[test]
fn test_no_annealing_keeps_temperature() {
    let p = make_params(0.1, 0.1, 5, &[1.0], 0.5, 3).unwrap();
    let mut state = McState::new(&p, ackley(&[1.0]).to_bits());
    assert!(!state.anneal);
    for _ in 0..5 {
        state.update_temperature(0.5f64.to_bits());
        assert_eq!(state.temperature, 0.1f64.to_bits());
    }
}

#[test]
fn test_annealing_follows_update() {
    let p = make_params(0.1, 0.01, 5, &[1.0], 0.5, 3).unwrap();
    let mut state = McState::new(&p, ackley(&[1.0]).to_bits());
    assert!(state.anneal);
    state.update_temperature(0.05f64.to_bits());
    assert_eq!(state.temperature, 0.05f64.to_bits());
}

#[test]
fn test_config_errors() {
    assert_eq!(
        make_params(0.1, 0.1, 0, &[1.0], 0.5, 1).unwrap_err(),
        ConfigError::ZeroStepCount
    );
    assert_eq!(
        make_params(0.0, 0.1, 10, &[1.0], 0.5, 1).unwrap_err(),
        ConfigError::NonPositiveInitialTemperature
    );
    assert_eq!(
        make_params(-0.5, 0.1, 10, &[1.0], 0.5, 1).unwrap_err(),
        ConfigError::NonPositiveInitialTemperature
    );
    assert_eq!(
        make_params(f64::NAN, 0.1, 10, &[1.0], 0.5, 1).unwrap_err(),
        ConfigError::NonPositiveInitialTemperature
    );
    assert_eq!(
        make_params(0.1, 0.1, 10, &[1.0], 0.0, 1).unwrap_err(),
        ConfigError::NonPositiveStepScale
    );
    assert_eq!(
        make_params(0.1, 0.1, 10, &[], 0.5, 1).unwrap_err(),
        ConfigError::EmptyInitialPoint
    );
}

#[test]
fn test_negative_final_temperature_defaults() {
    let p = make_params(0.1, -1.0, 10, &[1.0], 0.5, 1).unwrap();
    assert_eq!(p.final_temp, 0.1f64.to_bits());
    let state = McState::new(&p, ackley(&[1.0]).to_bits());
    assert!(!state.anneal);
}

#[test]
fn test_proposed_indices_cover_dimension() {
    let p = make_params(0.1, 0.1, 10, &[1.0, 2.0, 3.0], 0.5, 1).unwrap();
    let state = McState::new(&p, ackley(&[1.0, 2.0, 3.0]).to_bits());
    let mut rng = ChaCha8Rng::seed_from_u64(99);
    let mut seen = [false; 3];
    for _ in 0..200 {
        let i = state.propose_index(&mut rng);
        assert!(i < 3);
        seen[i] = true;
    }
    assert!(seen[0] && seen[1] && seen[2]);
}

#[test]
fn test_csv_rows_structure() {
    let p = make_params(0.3, 0.1, 400, &[2.0, -1.0], 0.5, 23).unwrap();
    let (r, _) = run(&p);
    let rows = csv_rows(&r);
    let needs_closing = r.accepted_steps.last() != Some(&(r.n_steps - 1));
    assert_eq!(rows.len(), r.accepted_steps.len() + usize::from(needs_closing));
    for (k, s) in r.accepted_steps.iter().enumerate() {
        assert_eq!(rows[k].step, *s);
        assert_eq!(rows[k].x, r.x_vals[*s as usize]);
        assert_eq!(rows[k].e, r.e_vals[*s as usize]);
    }
    if needs_closing {
        let closing = rows.last().unwrap();
        assert_eq!(closing.step, r.n_steps);
        assert_eq!(closing.x, r.x_vals[r.n_steps as usize]);
        assert_eq!(closing.e, r.e_vals[r.n_steps as usize]);
    }
}

#[test]
fn test_csv_rows_final_step_accepted() {
    // One step, accepted unconditionally: every chain state already has a
    // row, so there is no closing row.
    let p = make_params(0.1, 0.1, 1, &[1.0], 0.5, 1).unwrap();
    let mut state = McState::new(&p, 5.0f64.to_bits());
    state.step(0, 0.5f64.to_bits(), 4.0f64.to_bits(), None);
    let r = state.into_result();
    assert_eq!(r.accepted_steps, vec![0]);
    let rows = csv_rows(&r);
    assert_eq!(rows.len(), 1);
    assert_eq!(rows[0].step, 0);
    assert_eq!(rows[0].x, r.x_vals[0]);
    assert_eq!(rows[0].e, r.e_vals[0]);
}

#[test]
fn test_csv_rows_nothing_accepted() {
    // One step, rejected: the closing row carries the last chain state.
    let p = make_params(0.1, 0.1, 1, &[1.0], 0.5, 1).unwrap();
    let mut state = McState::new(&p, 4.0f64.to_bits());
    let draw = 0.9f64.to_bits();
    let prob = 0.5f64.to_bits();
    state.step(0, 0.5f64.to_bits(), 5.0f64.to_bits(), Some((draw, prob)));
    let r = state.into_result();
    assert!(r.accepted_steps.is_empty());
    let rows = csv_rows(&r);
    assert_eq!(rows.len(), 1);
    let closing = rows.last().unwrap();
    assert_eq!(closing.step, 1);
    assert_eq!(closing.x, r.x_vals[1]);
    assert_eq!(closing.e, r.e_vals[1]);
}

#[test]
fn test_scenario_golden() {
    let p = make_params(0.1, 0.1, 500000, &[-1.5, 0.5, 1.0], 0.5, 1699).unwrap();
    let (r, _) = run(&p);
    let again = make_params(0.1, 0.1, 500000, &[-1.5, 0.5, 1.0], 0.5, 1699).unwrap();
    let (r2, _) = run(&again);
    assert_eq!(r.e_best, r2.e_best);
    assert_eq!(r.x_best, r2.x_best);
    // Golden fixture, established from this implementation: a best energy
    // of about 1.616e-3 at a point near the origin.
    assert_eq!(r.e_best, 4565097412471572480u64);
    assert_eq!(
        r.x_best,
        vec![
            13782381973928069120u64,
            4553656860173238272u64,
            13768468298467672064u64
        ]
    );
}
