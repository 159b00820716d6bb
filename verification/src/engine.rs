//! The per-channel filter engine.
//!
//! One engine owns one parameter record, one state per circuit and one
//! smoother per smoothed parameter.  Each processed sample first advances
//! any glide in flight and re-derives the touched coefficients, then ticks
//! the selected circuit with the selected solver.  Parameter requests by
//! identifier are the control surface's entry point; an unknown identifier
//! is a no-op, never a failure of the audio path.

use vstd::prelude::*;
use crate::coeff::{
    clamp_cutoff, clamp_cutoff_spec, cutoff_max_spec, derive_g, g_spec, k_ladder_spec, k_svf_spec,
    CircuitMode, FilterMode, FilterParams, SolverKind, CUTOFF_MAX_MHZ, CUTOFF_MIN_MHZ, SR_MAX,
    SR_MIN,
};
use crate::fixed::{fx_valid, lemma_tdiv_bounds, lemma_tdiv_upper, tdiv, FX_ONE};
use crate::ladder::{ladder_tick_out_spec, ladder_tick_state_spec, LadderState};
use crate::smooth::{smoother_step_spec, Smoother};
use crate::svf::{svf_tick_out_spec, svf_tick_state_spec, SvfState};

verus! {

/// Samples a scheduled parameter glide is spread over.
pub const SMOOTH_STEPS: u32 = 64;

/// Parameter identifier: cutoff frequency.
pub const PARAM_CUTOFF: u32 = 0;

/// Parameter identifier: resonance.
pub const PARAM_RESONANCE: u32 = 1;

/// Parameter identifier: drive.
pub const PARAM_DRIVE: u32 = 2;

/// Parameter identifier: response mode.
pub const PARAM_MODE: u32 = 3;

/// Parameter identifier: ladder slope.
pub const PARAM_SLOPE: u32 = 4;

/// One audio channel's filter: parameters, coefficients, per-circuit state,
/// solver choice, and one smoother per smoothed parameter.
pub struct FilterEngine {
    pub params: FilterParams,
    pub svf: SvfState,
    pub ladder: LadderState,
    pub solver: SolverKind,
    pub cutoff_sm: Smoother,
    pub res_sm: Smoother,
    pub drive_sm: Smoother,
}

impl FilterEngine {
    /// Parameters and coefficients agree, states are representable, and each
    /// smoother holds exactly the value its parameter has, with a target
    /// still inside that parameter's range.
    pub open spec fn wf(self) -> bool {
        &&& self.params.wf()
        &&& self.svf.wf()
        &&& self.ladder.wf()
        &&& self.cutoff_sm.current == self.params.cutoff_mhz
        &&& CUTOFF_MIN_MHZ <= self.cutoff_sm.target
        &&& self.cutoff_sm.target <= cutoff_max_spec(self.params.sample_rate_hz as int)
        &&& self.res_sm.current == self.params.resonance
        &&& 0 <= self.res_sm.target <= FX_ONE
        &&& self.drive_sm.current == self.params.drive
        &&& 0 <= self.drive_sm.target <= FX_ONE
    }

    /// A fresh engine at the given sample rate: default parameters, silent
    /// state, Newton solver, no glide in flight.
    pub fn new(sample_rate_hz: u32) -> (e: FilterEngine)
        requires
            SR_MIN <= sample_rate_hz <= SR_MAX,
        ensures
            e.wf(),
            e.params.sample_rate_hz == sample_rate_hz,
            e.svf.s0 == 0 && e.svf.s1 == 0,
            e.ladder.s0 == 0 && e.ladder.s1 == 0 && e.ladder.s2 == 0 && e.ladder.s3 == 0,
            e.solver == SolverKind::Newton,
            !e.cutoff_sm.is_smoothing_spec(),
            !e.res_sm.is_smoothing_spec(),
            !e.drive_sm.is_smoothing_spec(),
    {
        let params = FilterParams::new(sample_rate_hz);
        let cutoff_sm = Smoother::with_value(params.cutoff_mhz);
        let res_sm = Smoother::with_value(params.resonance);
        let drive_sm = Smoother::with_value(params.drive);
        FilterEngine {
            params,
            svf: SvfState::new(),
            ladder: LadderState::new(),
            solver: SolverKind::Newton,
            cutoff_sm,
            res_sm,
            drive_sm,
        }
    }

    /// Choose the solver strategy.
    pub fn set_solver(&mut self, solver: SolverKind)
        requires
            old(self).wf(),
        ensures
            final(self).wf(),
            (*final(self)) == (FilterEngine { solver, ..*old(self) }),
    {
        self.solver = solver;
    }
}

/// Whether a host bus layout is accepted: any symmetrical input/output
/// layout with at least one channel.
pub fn accepts_bus_config(num_input_channels: u32, num_output_channels: u32) -> (ok: bool)
    ensures
        ok == (num_input_channels == num_output_channels && num_input_channels > 0),
{
    num_input_channels == num_output_channels && num_input_channels > 0
}

/// A smoother after the per-sample advance: stepped while a glide is in
/// flight, untouched otherwise.
pub open spec fn smoother_advance_spec(sm: Smoother) -> Smoother {
    if sm.is_smoothing_spec() {
        smoother_step_spec(sm)
    } else {
        sm
    }
}

/// The parameter record after the per-sample smoothing pass: every stepped
/// value is installed and its coefficients re-derived at once, so the filter
/// cores never see a stale coefficient.
pub open spec fn params_after_smoothing_spec(e: FilterEngine) -> FilterParams {
    let p0 = e.params;
    let p1 = if e.cutoff_sm.is_smoothing_spec() {
        FilterParams {
            cutoff_mhz: smoother_step_spec(e.cutoff_sm).current,
            g: g_spec(
                smoother_step_spec(e.cutoff_sm).current as int,
                p0.sample_rate_hz as int,
            ) as i64,
            ..p0
        }
    } else {
        p0
    };
    let p2 = if e.res_sm.is_smoothing_spec() {
        FilterParams {
            resonance: smoother_step_spec(e.res_sm).current,
            k_svf: k_svf_spec(smoother_step_spec(e.res_sm).current as int) as i64,
            k_ladder: k_ladder_spec(smoother_step_spec(e.res_sm).current as int) as i64,
            ..p1
        }
    } else {
        p1
    };
    if e.drive_sm.is_smoothing_spec() {
        FilterParams { drive: smoother_step_spec(e.drive_sm).current, ..p2 }
    } else {
        p2
    }
}

impl FilterEngine {
    /// Process one sample: advance any glide in flight (re-deriving the
    /// touched coefficients), then tick the selected circuit with the
    /// selected solver.
    pub fn process_sample(&mut self, input: i64) -> (out: i64)
        requires
            old(self).wf(),
            fx_valid(input as int),
        ensures
            final(self).wf(),
            fx_valid(out as int),
            final(self).params == params_after_smoothing_spec(*old(self)),
            final(self).cutoff_sm == smoother_advance_spec(old(self).cutoff_sm),
            final(self).res_sm == smoother_advance_spec(old(self).res_sm),
            final(self).drive_sm == smoother_advance_spec(old(self).drive_sm),
            final(self).solver == old(self).solver,
            ({
                let p = params_after_smoothing_spec(*old(self));
                if p.circuit == CircuitMode::Svf {
                    &&& out == svf_tick_out_spec(p, old(self).svf, input as int, old(self).solver)
                    &&& final(self).svf == svf_tick_state_spec(
                        p,
                        old(self).svf,
                        input as int,
                        old(self).solver,
                    )
                    &&& final(self).ladder == old(self).ladder
                } else {
                    &&& out == ladder_tick_out_spec(p, old(self).ladder, input as int, old(self).solver)
                    &&& final(self).ladder == ladder_tick_state_spec(
                        p,
                        old(self).ladder,
                        input as int,
                        old(self).solver,
                    )
                    &&& final(self).svf == old(self).svf
                }
            }),
    {
        if self.cutoff_sm.is_smoothing() {
            let c = self.cutoff_sm.step();
            self.params.update_g(c);
        }
        if self.res_sm.is_smoothing() {
            let r = self.res_sm.step();
            self.params.set_resonances(r);
        }
        if self.drive_sm.is_smoothing() {
            let d = self.drive_sm.step();
            self.params.drive = d;
        }
        match self.params.circuit {
            CircuitMode::Svf => self.svf.tick(&self.params, self.solver, input),
            CircuitMode::Ladder => self.ladder.tick(&self.params, self.solver, input),
        }
    }
}

/// The cutoff a normalized control value maps to: linear between the lowest
/// cutoff and the highest the sample rate admits.
pub open spec fn cutoff_from_normalized_spec(v: int, sample_rate_hz: int) -> int {
    CUTOFF_MIN_MHZ + tdiv(
        v * (cutoff_max_spec(sample_rate_hz) - CUTOFF_MIN_MHZ),
        FX_ONE as int,
    )
}

/// The response mode a normalized control value maps to: six equal bins.
pub open spec fn mode_from_normalized_spec(v: int) -> FilterMode {
    let idx = tdiv(v * 6, FX_ONE as int);
    if idx <= 0 {
        FilterMode::Lowpass
    } else if idx == 1 {
        FilterMode::Highpass
    } else if idx == 2 {
        FilterMode::Bandpass
    } else if idx == 3 {
        FilterMode::Notch
    } else if idx == 4 {
        FilterMode::Peak
    } else {
        FilterMode::NormalizedBandpass
    }
}

/// The slope a normalized control value maps to: four equal bins, one stage
/// to four stages.
pub open spec fn slope_from_normalized_spec(v: int) -> int {
    let idx = tdiv(v * 4, FX_ONE as int);
    if idx <= 0 {
        1
    } else if idx >= 3 {
        4
    } else {
        idx + 1
    }
}

/// A control value clamped to the normalized range.
pub open spec fn clamp_normalized_spec(v: int) -> int {
    if v < 0 {
        0
    } else if v > FX_ONE {
        FX_ONE as int
    } else {
        v
    }
}

impl FilterEngine {
    /// Request a parameter change by identifier with a normalized value.
    /// Cutoff, resonance and drive glide toward the target; mode and slope
    /// switch immediately.  An unknown identifier is ignored.
    pub fn request_parameter_change(&mut self, id: u32, value: i64)
        requires
            old(self).wf(),
        ensures
            final(self).wf(),
            final(self).svf == old(self).svf,
            final(self).ladder == old(self).ladder,
            final(self).solver == old(self).solver,
            ({
                let v = clamp_normalized_spec(value as int);
                let e = *old(self);
                if id == PARAM_CUTOFF {
                    let t = cutoff_from_normalized_spec(v, e.params.sample_rate_hz as int);
                    &&& final(self).params == e.params
                    &&& final(self).cutoff_sm.target == t
                    &&& final(self).cutoff_sm.current == e.cutoff_sm.current
                    &&& final(self).cutoff_sm.steps_left == (
                        if t == e.cutoff_sm.current {
                            0u32
                        } else {
                            SMOOTH_STEPS
                        }
                    )
                    &&& final(self).res_sm == e.res_sm
                    &&& final(self).drive_sm == e.drive_sm
                } else if id == PARAM_RESONANCE {
                    &&& final(self).params == e.params
                    &&& final(self).res_sm.target == v
                    &&& final(self).res_sm.current == e.res_sm.current
                    &&& final(self).res_sm.steps_left == (
                        if v == e.res_sm.current {
                            0u32
                        } else {
                            SMOOTH_STEPS
                        }
                    )
                    &&& final(self).cutoff_sm == e.cutoff_sm
                    &&& final(self).drive_sm == e.drive_sm
                } else if id == PARAM_DRIVE {
                    &&& final(self).params == e.params
                    &&& final(self).drive_sm.target == v
                    &&& final(self).drive_sm.current == e.drive_sm.current
                    &&& final(self).drive_sm.steps_left == (
                        if v == e.drive_sm.current {
                            0u32
                        } else {
                            SMOOTH_STEPS
                        }
                    )
                    &&& final(self).cutoff_sm == e.cutoff_sm
                    &&& final(self).res_sm == e.res_sm
                } else if id == PARAM_MODE {
                    &&& final(self).params == (FilterParams {
                        mode: mode_from_normalized_spec(v),
                        ..e.params
                    })
                    &&& final(self).cutoff_sm == e.cutoff_sm
                    &&& final(self).res_sm == e.res_sm
                    &&& final(self).drive_sm == e.drive_sm
                } else if id == PARAM_SLOPE {
                    &&& final(self).params == (FilterParams {
                        slope: slope_from_normalized_spec(v) as u8,
                        ..e.params
                    })
                    &&& final(self).cutoff_sm == e.cutoff_sm
                    &&& final(self).res_sm == e.res_sm
                    &&& final(self).drive_sm == e.drive_sm
                } else {
                    (*final(self)) == e
                }
            }),
    {
        let v: i64 = if value < 0 {
            0
        } else if value > FX_ONE {
            FX_ONE
        } else {
            value
        };
        if id == PARAM_CUTOFF {
            proof {
                let hi = cutoff_max_spec(self.params.sample_rate_hz as int);
                assert(0 <= v as int * (hi - CUTOFF_MIN_MHZ)) by (nonlinear_arith)
                    requires
                        0 <= v,
                        CUTOFF_MIN_MHZ <= hi;
                assert(v as int * (hi - CUTOFF_MIN_MHZ) <= FX_ONE as int * (hi
                    - CUTOFF_MIN_MHZ)) by (nonlinear_arith)
                    requires
                        0 <= v <= FX_ONE,
                        CUTOFF_MIN_MHZ <= hi;
                lemma_tdiv_bounds(v as int * (hi - CUTOFF_MIN_MHZ), FX_ONE as int);
                lemma_tdiv_upper(
                    v as int * (hi - CUTOFF_MIN_MHZ),
                    FX_ONE as int,
                    hi - CUTOFF_MIN_MHZ,
                );
            }
            let nyq: i64 = 490 * (self.params.sample_rate_hz as i64);
            let hi: i64 = if nyq < CUTOFF_MAX_MHZ {
                nyq
            } else {
                CUTOFF_MAX_MHZ
            };
            let span: i64 = hi - CUTOFF_MIN_MHZ;
            let t: i64 = CUTOFF_MIN_MHZ + (v * span) / FX_ONE;
            self.cutoff_sm.set_target(t, SMOOTH_STEPS);
        } else if id == PARAM_RESONANCE {
            self.res_sm.set_target(v, SMOOTH_STEPS);
        } else if id == PARAM_DRIVE {
            self.drive_sm.set_target(v, SMOOTH_STEPS);
        } else if id == PARAM_MODE {
            let idx: i64 = (v * 6) / FX_ONE;
            self.params.mode = if idx <= 0 {
                FilterMode::Lowpass
            } else if idx == 1 {
                FilterMode::Highpass
            } else if idx == 2 {
                FilterMode::Bandpass
            } else if idx == 3 {
                FilterMode::Notch
            } else if idx == 4 {
                FilterMode::Peak
            } else {
                FilterMode::NormalizedBandpass
            };
        } else if id == PARAM_SLOPE {
            let idx: i64 = (v * 4) / FX_ONE;
            self.params.slope = if idx <= 0 {
                1
            } else if idx >= 3 {
                4
            } else {
                (idx + 1) as u8
            };
        }
    }

    /// Authoritative structural change: new sample rate, circuit and slope
    /// take effect at once, the cutoff is re-clamped to what the new rate
    /// admits, its coefficient is recomputed immediately, and any cutoff
    /// glide is cancelled at the reached value.
    pub fn set_structural_parameters(&mut self, sample_rate_hz: u32, circuit: CircuitMode, slope: u8)
        requires
            old(self).wf(),
        ensures
            final(self).wf(),
            final(self).svf == old(self).svf,
            final(self).ladder == old(self).ladder,
            final(self).solver == old(self).solver,
            final(self).res_sm == old(self).res_sm,
            final(self).drive_sm == old(self).drive_sm,
            final(self).params.sample_rate_hz == (
                if sample_rate_hz < SR_MIN {
                    SR_MIN
                } else if sample_rate_hz > SR_MAX {
                    SR_MAX
                } else {
                    sample_rate_hz
                }
            ),
            final(self).params.circuit == circuit,
            final(self).params.slope == (
                if slope < 1 {
                    1u8
                } else if slope > 4 {
                    4u8
                } else {
                    slope
                }
            ),
            final(self).params.cutoff_mhz == clamp_cutoff_spec(
                old(self).params.cutoff_mhz as int,
                final(self).params.sample_rate_hz as int,
            ),
            final(self).params.g == g_spec(
                final(self).params.cutoff_mhz as int,
                final(self).params.sample_rate_hz as int,
            ),
            final(self).params.resonance == old(self).params.resonance,
            final(self).params.drive == old(self).params.drive,
            final(self).params.mode == old(self).params.mode,
            !final(self).cutoff_sm.is_smoothing_spec(),
    {
        let sr: u32 = if sample_rate_hz < SR_MIN {
            SR_MIN
        } else if sample_rate_hz > SR_MAX {
            SR_MAX
        } else {
            sample_rate_hz
        };
        let sl: u8 = if slope < 1 {
            1
        } else if slope > 4 {
            4
        } else {
            slope
        };
        let c = clamp_cutoff(self.params.cutoff_mhz, sr);
        let g = derive_g(c, sr);
        self.params.sample_rate_hz = sr;
        self.params.cutoff_mhz = c;
        self.params.g = g;
        self.params.circuit = circuit;
        self.params.slope = sl;
        self.cutoff_sm = Smoother::with_value(c);
    }
}

} // verus!
