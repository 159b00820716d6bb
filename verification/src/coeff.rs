//! Filter parameters and coefficient derivation.
//!
//! The user-facing parameters (cutoff, resonance, drive, mode, circuit,
//! slope, sample rate) live beside the coefficients derived from them: the
//! warped integrator gain `g` and the per-circuit feedback gains.  The
//! well-formedness predicate ties every coefficient to the parameters it was
//! derived from, so a stale coefficient cannot exist in a well-formed record.

use vstd::prelude::*;
use crate::fixed::{
    fx_clamp_spec, fx_mul_spec, lemma_tdiv_bounds, lemma_tdiv_upper, tdiv, FX_MAX, FX_ONE,
};

verus! {

/// Pi in Q24.
pub const PI_FX: i64 = 52707179;

/// Lowest accepted sample rate, Hz.
pub const SR_MIN: u32 = 1000;

/// Highest accepted sample rate, Hz.
pub const SR_MAX: u32 = 1000000;

/// Lowest cutoff, millihertz (20 Hz).
pub const CUTOFF_MIN_MHZ: i64 = 20000;

/// Highest cutoff, millihertz (20 kHz).
pub const CUTOFF_MAX_MHZ: i64 = 20000000;

/// Which response is tapped from the solved stage voltages.
#[derive(Clone, Copy, Debug, PartialEq, Eq, Structural)]
pub enum FilterMode {
    Lowpass,
    Highpass,
    Bandpass,
    Notch,
    Peak,
    NormalizedBandpass,
}

/// Which circuit topology processes the samples.
#[derive(Clone, Copy, Debug, PartialEq, Eq, Structural)]
pub enum CircuitMode {
    Svf,
    Ladder,
}

/// Which strategy resolves the implicit per-sample equation.
#[derive(Clone, Copy, Debug, PartialEq, Eq, Structural)]
pub enum SolverKind {
    FixedPivot,
    Newton,
}

/// The prewarped integrator gain: a polynomial approximation of
/// `tan(pi * cutoff / sample_rate)` in Q24, saturated defensively.
pub open spec fn g_spec(cutoff_mhz: int, sample_rate_hz: int) -> int {
    let w = tdiv(PI_FX * cutoff_mhz, sample_rate_hz * 1000);
    let w2 = fx_mul_spec(w, w);
    let w3 = fx_mul_spec(w2, w);
    let w5 = fx_mul_spec(w3, w2);
    fx_clamp_spec(w + tdiv(w3, 3) + tdiv(2 * w5, 15))
}

/// The state-variable damping gain `k = 2 * (1 - resonance)` in Q24.
pub open spec fn k_svf_spec(resonance: int) -> int {
    2 * (FX_ONE - resonance)
}

/// The ladder's global feedback gain `3.9 * resonance` in Q24, held below
/// the self-oscillation limit of four.
pub open spec fn k_ladder_spec(resonance: int) -> int {
    tdiv(resonance * 39, 10)
}

/// The cutoff range admitted at a given sample rate: at least 20 Hz, at most
/// 20 kHz, and below half the sample rate (the warp diverges at Nyquist).
pub open spec fn cutoff_max_spec(sample_rate_hz: int) -> int {
    if 490 * sample_rate_hz < CUTOFF_MAX_MHZ {
        490 * sample_rate_hz
    } else {
        CUTOFF_MAX_MHZ as int
    }
}

/// User-facing parameters with the coefficients derived from them.
#[derive(Clone, Copy)]
pub struct FilterParams {
    pub sample_rate_hz: u32,
    pub cutoff_mhz: i64,
    pub resonance: i64,
    pub drive: i64,
    pub mode: FilterMode,
    pub circuit: CircuitMode,
    pub slope: u8,
    pub g: i64,
    pub k_svf: i64,
    pub k_ladder: i64,
}

impl FilterParams {
    /// Ranges hold and no coefficient is stale.
    pub open spec fn wf(self) -> bool {
        &&& SR_MIN <= self.sample_rate_hz <= SR_MAX
        &&& CUTOFF_MIN_MHZ <= self.cutoff_mhz <= cutoff_max_spec(self.sample_rate_hz as int)
        &&& 0 <= self.resonance <= FX_ONE
        &&& 0 <= self.drive <= FX_ONE
        &&& 1 <= self.slope <= 4
        &&& self.g == g_spec(self.cutoff_mhz as int, self.sample_rate_hz as int)
        &&& self.k_svf == k_svf_spec(self.resonance as int)
        &&& self.k_ladder == k_ladder_spec(self.resonance as int)
    }
}

/// The derived `g` is nonnegative and in range whenever the cutoff is below
/// half the sample rate.
pub proof fn lemma_g_bounds(cutoff_mhz: int, sample_rate_hz: int)
    requires
        0 <= cutoff_mhz,
        cutoff_mhz <= 500 * sample_rate_hz,
        1 <= sample_rate_hz <= SR_MAX,
    ensures
        0 <= g_spec(cutoff_mhz, sample_rate_hz) <= FX_MAX,
        tdiv(PI_FX * cutoff_mhz, sample_rate_hz * 1000) <= 26353590,
{
    let w = tdiv(PI_FX * cutoff_mhz, sample_rate_hz * 1000);
    assert(PI_FX * cutoff_mhz <= (sample_rate_hz * 1000) * 26353590) by (nonlinear_arith)
        requires
            0 <= cutoff_mhz,
            cutoff_mhz <= 500 * sample_rate_hz,
            1 <= sample_rate_hz;
    assert(PI_FX * cutoff_mhz >= 0) by (nonlinear_arith)
        requires
            0 <= cutoff_mhz;
    lemma_tdiv_bounds(PI_FX * cutoff_mhz, sample_rate_hz * 1000);
    lemma_tdiv_upper(PI_FX * cutoff_mhz, sample_rate_hz * 1000, 26353590);
    let w2 = fx_mul_spec(w, w);
    let w3 = fx_mul_spec(w2, w);
    let w5 = fx_mul_spec(w3, w2);
    assert(0 <= w * w) by (nonlinear_arith)
        requires
            0 <= w;
    lemma_tdiv_bounds(w * w, FX_ONE as int);
    assert(0 <= w2 * w) by (nonlinear_arith)
        requires
            0 <= w2,
            0 <= w;
    lemma_tdiv_bounds(w2 * w, FX_ONE as int);
    assert(0 <= w3 * w2) by (nonlinear_arith)
        requires
            0 <= w3,
            0 <= w2;
    lemma_tdiv_bounds(w3 * w2, FX_ONE as int);
    lemma_tdiv_bounds(w3, 3);
    lemma_tdiv_bounds(2 * w5, 15);
}

/// Deriving the coefficient twice from identical cutoff and sample-rate
/// inputs yields bit-identical results.
pub proof fn lemma_g_derivation_idempotent(g1: int, g2: int, cutoff_mhz: int, sample_rate_hz: int)
    requires
        g1 == g_spec(cutoff_mhz, sample_rate_hz),
        g2 == g_spec(cutoff_mhz, sample_rate_hz),
    ensures
        g1 == g2,
{
}

/// Derive the prewarped integrator gain from cutoff and sample rate.
pub fn derive_g(cutoff_mhz: i64, sample_rate_hz: u32) -> (g: i64)
    requires
        0 <= cutoff_mhz,
        cutoff_mhz <= 500 * sample_rate_hz,
        1 <= sample_rate_hz <= SR_MAX,
    ensures
        g == g_spec(cutoff_mhz as int, sample_rate_hz as int),
        0 <= g <= FX_MAX,
{
    proof {
        lemma_g_bounds(cutoff_mhz as int, sample_rate_hz as int);
    }
    let den: i64 = (sample_rate_hz as i64) * 1000;
    let w: i64 = (PI_FX * cutoff_mhz) / den;
    let w2: i64 = crate::fixed::fx_mul(w, w);
    let w3: i64 = crate::fixed::fx_mul(w2, w);
    let w5: i64 = crate::fixed::fx_mul(w3, w2);
    crate::fixed::fx_clamp(w + w3 / 3 + (2 * w5) / 15)
}

/// Derive the state-variable damping gain from resonance.
pub fn derive_k_svf(resonance: i64) -> (k: i64)
    requires
        0 <= resonance <= FX_ONE,
    ensures
        k == k_svf_spec(resonance as int),
        0 <= k <= 2 * FX_ONE,
{
    2 * (FX_ONE - resonance)
}

/// Derive the ladder feedback gain from resonance.
pub fn derive_k_ladder(resonance: i64) -> (k: i64)
    requires
        0 <= resonance <= FX_ONE,
    ensures
        k == k_ladder_spec(resonance as int),
        0 <= k <= 4 * FX_ONE,
{
    proof {
        lemma_tdiv_bounds(resonance as int * 39, 10);
        lemma_tdiv_upper(resonance as int * 39, 10, 4 * FX_ONE as int);
    }
    (resonance * 39) / 10
}

/// Clamp a requested cutoff into `[20 Hz, min(20 kHz, 0.49 * sample rate)]`.
pub fn clamp_cutoff(cutoff_mhz: i64, sample_rate_hz: u32) -> (c: i64)
    requires
        SR_MIN <= sample_rate_hz <= SR_MAX,
    ensures
        c == clamp_cutoff_spec(cutoff_mhz as int, sample_rate_hz as int),
        CUTOFF_MIN_MHZ <= c <= cutoff_max_spec(sample_rate_hz as int),
{
    let nyq: i64 = 490 * (sample_rate_hz as i64);
    let hi: i64 = if nyq < CUTOFF_MAX_MHZ {
        nyq
    } else {
        CUTOFF_MAX_MHZ
    };
    if cutoff_mhz < CUTOFF_MIN_MHZ {
        CUTOFF_MIN_MHZ
    } else if cutoff_mhz > hi {
        hi
    } else {
        cutoff_mhz
    }
}

impl FilterParams {
    /// A fresh parameter set at the given sample rate: a 1 kHz cutoff (or as
    /// high as the sample rate admits), no resonance, no drive, lowpass
    /// state-variable response.
    pub fn new(sample_rate_hz: u32) -> (p: FilterParams)
        requires
            SR_MIN <= sample_rate_hz <= SR_MAX,
        ensures
            p.wf(),
            p.sample_rate_hz == sample_rate_hz,
            p.cutoff_mhz == clamp_cutoff_spec(1000000, sample_rate_hz as int),
            p.resonance == 0,
            p.drive == 0,
            p.mode == FilterMode::Lowpass,
            p.circuit == CircuitMode::Svf,
            p.slope == 4,
    {
        let cutoff_mhz = clamp_cutoff(1000000, sample_rate_hz);
        let g = derive_g(cutoff_mhz, sample_rate_hz);
        FilterParams {
            sample_rate_hz,
            cutoff_mhz,
            resonance: 0,
            drive: 0,
            mode: FilterMode::Lowpass,
            circuit: CircuitMode::Svf,
            slope: 4,
            g,
            k_svf: derive_k_svf(0),
            k_ladder: derive_k_ladder(0),
        }
    }

    /// Re-derive `g` for a new cutoff; the authoritative recomputation that
    /// must follow every cutoff or sample-rate change.
    pub fn update_g(&mut self, cutoff_mhz: i64)
        requires
            old(self).wf(),
            CUTOFF_MIN_MHZ <= cutoff_mhz <= cutoff_max_spec(old(self).sample_rate_hz as int),
        ensures
            final(self).wf(),
            final(self).cutoff_mhz == cutoff_mhz,
            final(self).g == g_spec(cutoff_mhz as int, old(self).sample_rate_hz as int),
            (*final(self)) == (FilterParams {
                cutoff_mhz,
                g: final(self).g,
                ..*old(self)
            }),
    {
        self.cutoff_mhz = cutoff_mhz;
        self.g = derive_g(cutoff_mhz, self.sample_rate_hz);
    }

    /// Re-derive both feedback gains for a new resonance.
    pub fn set_resonances(&mut self, resonance: i64)
        requires
            old(self).wf(),
            0 <= resonance <= FX_ONE,
        ensures
            final(self).wf(),
            final(self).resonance == resonance,
            final(self).k_svf == k_svf_spec(resonance as int),
            final(self).k_ladder == k_ladder_spec(resonance as int),
            (*final(self)) == (FilterParams {
                resonance,
                k_svf: final(self).k_svf,
                k_ladder: final(self).k_ladder,
                ..*old(self)
            }),
    {
        self.resonance = resonance;
        self.k_svf = derive_k_svf(resonance);
        self.k_ladder = derive_k_ladder(resonance);
    }
}

/// Clamp a requested cutoff into `[20 Hz, min(20 kHz, 0.49 * sample rate)]`.
pub open spec fn clamp_cutoff_spec(cutoff_mhz: int, sample_rate_hz: int) -> int {
    let hi = cutoff_max_spec(sample_rate_hz);
    if cutoff_mhz < CUTOFF_MIN_MHZ {
        CUTOFF_MIN_MHZ as int
    } else if cutoff_mhz > hi {
        hi
    } else {
        cutoff_mhz
    }
}

} // verus!
