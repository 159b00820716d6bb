//! End-to-end tests of the filter core: stability, mode consistency,
//! solver agreement, Newton convergence, smoothing, coefficient
//! idempotence, the lowpass impulse scenario, and parameter snapshots.

use va_filter::coeff::{derive_g, CircuitMode, FilterMode, FilterParams, SolverKind};
use va_filter::engine::{FilterEngine, PARAM_CUTOFF, PARAM_MODE, PARAM_RESONANCE, PARAM_SLOPE};
use va_filter::fixed::{FX_MAX, FX_ONE};
use va_filter::ladder::LadderState;
use va_filter::svf::{svf_solve_newton, SvfState};

/// A real number as Q24.
fn fx(x: f64) -> i64 {
    (x * FX_ONE as f64) as i64
}

/// A Q24 value as a real number.
fn to_f(x: i64) -> f64 {
    x as f64 / FX_ONE as f64
}

fn params_at(sample_rate: u32, cutoff_mhz: i64, resonance: i64, drive: i64, mode: FilterMode) -> FilterParams {
    let mut p = FilterParams::new(sample_rate);
    p.update_g(cutoff_mhz);
    p.set_resonances(resonance);
    p.drive = drive;
    p.mode = mode;
    p
}

#[test]
fn impulse_outputs_bounded_svf_both_solvers() {
    for &res in &[0i64, FX_ONE / 2, FX_ONE] {
        for &solver in &[SolverKind::FixedPivot, SolverKind::Newton] {
            let p = params_at(44100, 1_000_000, res, 0, FilterMode::Lowpass);
            let mut st = SvfState::new();
            for n in 0..64 {
                let x = if n == 0 { FX_ONE } else { 0 };
                let out = st.tick(&p, solver, x);
                assert!(out.abs() <= FX_MAX, "unbounded svf output {out} at {n}");
                assert!(st.s0.abs() <= FX_MAX && st.s1.abs() <= FX_MAX);
            }
        }
    }
}

#[test]
fn impulse_outputs_bounded_ladder_both_solvers() {
    for &res in &[0i64, FX_ONE / 2, FX_ONE] {
        for &solver in &[SolverKind::FixedPivot, SolverKind::Newton] {
            let mut p = params_at(44100, 1_000_000, res, 0, FilterMode::Lowpass);
            p.circuit = CircuitMode::Ladder;
            let mut st = LadderState::new();
            for n in 0..64 {
                let x = if n == 0 { FX_ONE } else { 0 };
                let out = st.tick(&p, solver, x);
                assert!(out.abs() <= FX_MAX, "unbounded ladder output {out} at {n}");
            }
        }
    }
}

#[test]
fn silence_in_silence_out() {
    for &solver in &[SolverKind::FixedPivot, SolverKind::Newton] {
        let p = params_at(44100, 1_000_000, fx(0.7), fx(0.3), FilterMode::Highpass);
        let mut st = SvfState::new();
        for _ in 0..8 {
            assert_eq!(st.tick(&p, solver, 0), 0);
            assert_eq!((st.s0, st.s1), (0, 0));
        }
        let mut pl = p;
        pl.circuit = CircuitMode::Ladder;
        let mut lt = LadderState::new();
        for _ in 0..8 {
            assert_eq!(lt.tick(&pl, solver, 0), 0);
            assert_eq!((lt.s0, lt.s1, lt.s2, lt.s3), (0, 0, 0, 0));
        }
    }
}

#[test]
fn dc_mode_consistency_low_cutoff() {
    // At 20 Hz cutoff and zero resonance, a DC input settles so that
    // lowpass tracks the input and highpass vanishes, within 1e-3.
    let tol = fx(1e-3);
    let x = FX_ONE;
    let p = params_at(44100, 20_000, 0, 0, FilterMode::Lowpass);
    let mut st = SvfState::new();
    let mut lp = 0i64;
    for _ in 0..20000 {
        lp = st.tick(&p, SolverKind::Newton, x);
    }
    assert!((lp - x).abs() <= tol, "lowpass at DC should track input: {}", to_f(lp));

    // The stage voltages at that steady state decide every other mode.
    let mut ph = p;
    ph.mode = FilterMode::Highpass;
    let mut sth = SvfState { s0: st.s0, s1: st.s1 };
    let hp = sth.tick(&ph, SolverKind::Newton, x);
    assert!(hp.abs() <= tol, "highpass at DC should vanish: {}", to_f(hp));

    let mut pn = p;
    pn.mode = FilterMode::Notch;
    let mut stn = SvfState { s0: st.s0, s1: st.s1 };
    let notch = stn.tick(&pn, SolverKind::Newton, x);
    assert!((notch - x).abs() <= tol, "notch at DC should track input: {}", to_f(notch));

    let mut pb = p;
    pb.mode = FilterMode::Bandpass;
    let mut stb = SvfState { s0: st.s0, s1: st.s1 };
    let bp = stb.tick(&pb, SolverKind::Newton, x);
    assert!(bp.abs() <= tol, "bandpass at DC should vanish: {}", to_f(bp));

    let mut pp = p;
    pp.mode = FilterMode::Peak;
    let mut stp = SvfState { s0: st.s0, s1: st.s1 };
    let peak = stp.tick(&pp, SolverKind::Newton, x);
    assert!((peak + x).abs() <= tol, "peak at DC should invert input: {}", to_f(peak));
}

#[test]
fn solver_agreement_small_amplitude() {
    // For small inputs the saturator is nearly linear, so the one-pass
    // fixed-pivot solution and the Newton refinement agree within 1e-3.
    let tol = fx(1e-3);
    let p = params_at(44100, 1_000_000, FX_ONE / 4, 0, FilterMode::Lowpass);
    let mut st_p = SvfState::new();
    let mut st_n = SvfState::new();
    for n in 0..200 {
        let x = if n % 40 < 20 { fx(0.01) } else { fx(-0.01) };
        let out_p = st_p.tick(&p, SolverKind::FixedPivot, x);
        let out_n = st_n.tick(&p, SolverKind::Newton, x);
        assert!(
            (out_p - out_n).abs() <= tol,
            "solvers disagree at {n}: {} vs {}",
            to_f(out_p),
            to_f(out_n)
        );
    }
}

#[test]
fn newton_converges_on_step_sequence() {
    // A 0.5-amplitude step followed by zeros, 100 samples, default
    // resonance and drive: the Newton solver must report a residual below
    // tolerance for at least 95% of the samples.
    let p = params_at(44100, 1_000_000, 0, 0, FilterMode::Lowpass);
    let mut st = SvfState::new();
    let mut converged = 0u32;
    for n in 0..100 {
        let x = if n < 50 { FX_ONE / 2 } else { 0 };
        let xd = x; // zero drive leaves the input unscaled
        let (v0, v1, ok) = svf_solve_newton(p.g, p.k_svf, xd, st.s0, st.s1);
        if ok {
            converged += 1;
        }
        st.s0 = 2 * v0 - st.s0;
        st.s1 = 2 * v1 - st.s1;
    }
    assert!(converged >= 95, "only {converged}/100 samples converged");
}

#[test]
fn smoothing_spreads_cutoff_change() {
    // A cutoff request glides over 64 samples: each per-sample move stays
    // within the scheduled step size, never overshoots, and lands exactly
    // on the target.
    let mut e = FilterEngine::new(44100);
    let start = e.params.cutoff_mhz;
    e.request_parameter_change(PARAM_CUTOFF, FX_ONE / 2);
    let target = e.cutoff_sm.target;
    assert!(target != start);
    let max_step = (target - start).abs() / 64 + 1;
    let mut prev = start;
    for _ in 0..64 {
        let out = e.process_sample(fx(0.25));
        assert!(out.abs() <= FX_MAX);
        let cur = e.params.cutoff_mhz;
        assert!((cur - prev).abs() <= max_step, "cutoff jumped {} > {}", (cur - prev).abs(), max_step);
        if start <= target {
            assert!(prev <= cur && cur <= target);
        } else {
            assert!(target <= cur && cur <= prev);
        }
        prev = cur;
    }
    assert_eq!(e.params.cutoff_mhz, target);
    assert!(!e.cutoff_sm.is_smoothing());
}

#[test]
fn resonance_change_is_click_free() {
    // Feeding a resonance change mid-stream: the output may move, but only
    // gradually, sample by sample, while the glide is in flight.
    let mut e = FilterEngine::new(44100);
    let x = fx(0.25);
    for _ in 0..2000 {
        e.process_sample(x);
    }
    let settled = e.process_sample(x);
    e.request_parameter_change(PARAM_RESONANCE, fx(0.9));
    let mut prev = settled;
    for _ in 0..64 {
        let out = e.process_sample(x);
        assert!(
            (out - prev).abs() <= fx(0.05),
            "discontinuity during glide: {}",
            to_f((out - prev).abs())
        );
        prev = out;
    }
    assert_eq!(e.params.resonance, fx(0.9));
}

#[test]
fn coefficient_derivation_idempotent() {
    let g1 = derive_g(1_000_000, 44100);
    let g2 = derive_g(1_000_000, 44100);
    assert_eq!(g1, g2);
    let g3 = derive_g(19_999_999, 48000);
    let g4 = derive_g(19_999_999, 48000);
    assert_eq!(g3, g4);
    let mut p1 = FilterParams::new(44100);
    let mut p2 = FilterParams::new(44100);
    p1.update_g(5_000_000);
    p2.update_g(5_000_000);
    assert_eq!(p1.g, p2.g);
}

#[test]
fn coefficient_value_matches_tangent() {
    // g approximates tan(pi * 1000 / 44100) = 0.0714117...
    let g = derive_g(1_000_000, 44100);
    let expect = (std::f64::consts::PI * 1000.0 / 44100.0).tan();
    assert!((to_f(g) - expect).abs() < 1e-4, "g = {}", to_f(g));
}

#[test]
fn exact_coefficient_and_saturator_values() {
    // The coefficient formulas land on exact fixed-point values.
    assert_eq!(derive_g(1_000_000, 44100), 1197199);
    let mut p = FilterParams::new(44100);
    p.set_resonances(FX_ONE / 2);
    assert_eq!(p.k_svf, FX_ONE); // 2 * (1 - 0.5)
    assert_eq!(p.k_ladder, 32715571); // 3.9 * 0.5
    // The saturator halves a full-scale value and has unit gain at zero.
    assert_eq!(va_filter::sat::sat(FX_ONE), FX_ONE / 2);
    assert_eq!(va_filter::sat::sat_gain(0), FX_ONE);
    assert_eq!(va_filter::sat::sat(0), 0);
    assert_eq!(va_filter::sat::sat(-FX_ONE), -(FX_ONE / 2));
}

#[test]
fn snapshot_bytes_are_little_endian() {
    let e = FilterEngine::new(44100);
    assert_eq!(e.params.cutoff_mhz, 1_000_000);
    let bytes = e.serialize_parameters();
    assert_eq!(&bytes[0..4], &[64, 66, 15, 0]); // 1_000_000 little-endian
    assert_eq!(&bytes[12..16], &[68, 172, 0, 0]); // 44100 little-endian
    assert_eq!(bytes[16], 0); // lowpass
    assert_eq!(bytes[17], 0); // state-variable circuit
    assert_eq!(bytes[18], 4); // slope
}

#[test]
fn lowpass_impulse_decays_without_oscillation() {
    // Sample rate 44100 Hz, cutoff 1000 Hz, zero resonance, zero drive,
    // lowpass, unit impulse: the output never swings negative, and after
    // its single peak it decays monotonically toward zero.
    let p = params_at(44100, 1_000_000, 0, 0, FilterMode::Lowpass);
    let mut st = SvfState::new();
    let mut outs = Vec::new();
    for n in 0..100 {
        let x = if n == 0 { FX_ONE } else { 0 };
        outs.push(st.tick(&p, SolverKind::Newton, x));
    }
    let peak_idx = (0..outs.len()).max_by_key(|&i| outs[i]).unwrap();
    let peak = outs[peak_idx];
    assert!(peak > 0);
    for (n, &o) in outs.iter().enumerate() {
        assert!(o >= -fx(1e-6), "sign oscillation at {n}: {}", to_f(o));
    }
    for n in peak_idx..outs.len() - 1 {
        assert!(outs[n + 1] <= outs[n], "not decaying at {n}");
    }
    assert!(*outs.last().unwrap() <= fx(1e-3), "tail did not decay: {}", to_f(outs[99]));
}

#[test]
fn ladder_impulse_decays() {
    let mut p = params_at(44100, 1_000_000, 0, 0, FilterMode::Lowpass);
    p.circuit = CircuitMode::Ladder;
    let mut st = LadderState::new();
    let mut last = 0i64;
    for n in 0..300 {
        let x = if n == 0 { FX_ONE } else { 0 };
        last = st.tick(&p, SolverKind::Newton, x);
        assert!(last.abs() <= FX_MAX);
    }
    assert!(last.abs() <= fx(1e-3), "ladder tail did not decay: {}", to_f(last));
}

#[test]
fn drive_scales_input() {
    // With full drive the input is pre-scaled by two, so the lowpass DC
    // level doubles.
    let mut e = FilterEngine::new(44100);
    e.request_parameter_change(va_filter::engine::PARAM_DRIVE, FX_ONE);
    let x = fx(0.2);
    let mut out = 0i64;
    for _ in 0..20000 {
        out = e.process_sample(x);
    }
    assert!((out - 2 * x).abs() <= fx(2e-3), "driven DC level: {}", to_f(out));
}

#[test]
fn snapshot_roundtrip() {
    let mut e = FilterEngine::new(48000);
    e.request_parameter_change(PARAM_MODE, fx(0.4));
    e.request_parameter_change(PARAM_SLOPE, fx(0.9));
    e.params.set_resonances(fx(0.3));
    e.res_sm.current = fx(0.3);
    let bytes = e.serialize_parameters();
    assert_eq!(bytes.len(), 19);
    let mut e2 = FilterEngine::new(44100);
    assert!(e2.restore_parameters(&bytes));
    assert_eq!(e2.params.sample_rate_hz, e.params.sample_rate_hz);
    assert_eq!(e2.params.cutoff_mhz, e.params.cutoff_mhz);
    assert_eq!(e2.params.resonance, e.params.resonance);
    assert_eq!(e2.params.drive, e.params.drive);
    assert_eq!(e2.params.mode, e.params.mode);
    assert_eq!(e2.params.circuit, e.params.circuit);
    assert_eq!(e2.params.slope, e.params.slope);
    assert_eq!(e2.params.g, e.params.g);
    assert_eq!(e2.params.k_svf, e.params.k_svf);
    assert_eq!(e2.params.k_ladder, e.params.k_ladder);
}

#[test]
fn restore_rejects_malformed_snapshot() {
    let mut e = FilterEngine::new(44100);
    let before_cutoff = e.params.cutoff_mhz;
    assert!(!e.restore_parameters(&[1, 2, 3]));
    assert_eq!(e.params.cutoff_mhz, before_cutoff);
    let mut bad = e.serialize_parameters();
    // sample rate of zero is out of range
    bad[12] = 0;
    bad[13] = 0;
    bad[14] = 0;
    bad[15] = 0;
    assert!(!e.restore_parameters(&bad));
    assert_eq!(e.params.cutoff_mhz, before_cutoff);
    // a cutoff of zero is below the admitted range
    let mut bad2 = e.serialize_parameters();
    bad2[0] = 0;
    bad2[1] = 0;
    bad2[2] = 0;
    bad2[3] = 0;
    assert!(!e.restore_parameters(&bad2));
    // a mode tag past the last response is rejected
    let mut bad3 = e.serialize_parameters();
    bad3[16] = 6;
    assert!(!e.restore_parameters(&bad3));
    // a slope of zero is rejected
    let mut bad4 = e.serialize_parameters();
    bad4[18] = 0;
    assert!(!e.restore_parameters(&bad4));
    assert_eq!(e.params.cutoff_mhz, before_cutoff);
}

#[test]
fn invalid_parameter_id_is_ignored() {
    let mut e = FilterEngine::new(44100);
    let cutoff = e.params.cutoff_mhz;
    let res = e.params.resonance;
    let mode = e.params.mode;
    e.request_parameter_change(99, FX_ONE);
    assert_eq!(e.params.cutoff_mhz, cutoff);
    assert_eq!(e.params.resonance, res);
    assert_eq!(e.params.mode, mode);
    assert!(!e.cutoff_sm.is_smoothing());
    assert!(!e.res_sm.is_smoothing());
    assert!(!e.drive_sm.is_smoothing());
}

#[test]
fn mode_mapping_covers_all_six() {
    let cases = [
        (0.0, FilterMode::Lowpass),
        (0.2, FilterMode::Highpass),
        (0.4, FilterMode::Bandpass),
        (0.55, FilterMode::Notch),
        (0.7, FilterMode::Peak),
        (0.99, FilterMode::NormalizedBandpass),
    ];
    for &(v, expect) in &cases {
        let mut e = FilterEngine::new(44100);
        e.request_parameter_change(PARAM_MODE, fx(v));
        assert_eq!(e.params.mode, expect, "normalized {v}");
    }
}

#[test]
fn structural_change_recomputes_coefficients() {
    let mut e = FilterEngine::new(44100);
    e.set_structural_parameters(48000, CircuitMode::Ladder, 7);
    assert_eq!(e.params.sample_rate_hz, 48000);
    assert_eq!(e.params.circuit, CircuitMode::Ladder);
    assert_eq!(e.params.slope, 4);
    assert_eq!(e.params.g, derive_g(e.params.cutoff_mhz, 48000));
    // a very low sample rate clamps and re-clamps the cutoff below Nyquist
    e.params.update_g(19_000_000);
    e.set_structural_parameters(1000, CircuitMode::Svf, 0);
    assert_eq!(e.params.sample_rate_hz, 1000);
    assert_eq!(e.params.slope, 1);
    assert_eq!(e.params.cutoff_mhz, 490 * 1000);
    assert_eq!(e.params.g, derive_g(490 * 1000, 1000));
}

#[test]
fn bus_config_accepts_symmetrical_layouts() {
    assert!(va_filter::engine::accepts_bus_config(2, 2));
    assert!(va_filter::engine::accepts_bus_config(1, 1));
    assert!(!va_filter::engine::accepts_bus_config(2, 1));
    assert!(!va_filter::engine::accepts_bus_config(0, 0));
}
