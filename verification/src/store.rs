//! Snapshot and restore of the parameter set.
//!
//! The serialized form is 19 bytes: cutoff (millihertz), resonance, drive
//! and sample rate as little-endian 32-bit words, then one byte each for
//! mode, circuit and slope.  Restoring validates every field and derives
//! the coefficients anew; a malformed snapshot is rejected and leaves the
//! engine untouched.  Round-tripping a well-formed parameter set is proved
//! to reproduce it exactly.

use vstd::prelude::*;
use vstd::arithmetic::div_mod::{
    lemma_div_denominator, lemma_fundamental_div_mod, lemma_multiply_divide_lt,
};
use crate::coeff::{
    cutoff_max_spec, derive_g, derive_k_ladder, derive_k_svf, g_spec, k_ladder_spec, k_svf_spec,
    lemma_g_bounds, CircuitMode, FilterMode, FilterParams, CUTOFF_MAX_MHZ, CUTOFF_MIN_MHZ, SR_MAX,
    SR_MIN,
};
use crate::engine::FilterEngine;
use crate::fixed::{lemma_tdiv_bounds, lemma_tdiv_upper, FX_ONE};
use crate::smooth::Smoother;

verus! {

/// Length of a serialized parameter set.
pub const SNAPSHOT_LEN: usize = 19;

/// Tag of a response mode in the serialized form.
pub open spec fn mode_tag_spec(m: FilterMode) -> int {
    match m {
        FilterMode::Lowpass => 0,
        FilterMode::Highpass => 1,
        FilterMode::Bandpass => 2,
        FilterMode::Notch => 3,
        FilterMode::Peak => 4,
        FilterMode::NormalizedBandpass => 5,
    }
}

/// The response mode a tag denotes.
pub open spec fn mode_from_tag_spec(t: int) -> FilterMode {
    if t == 0 {
        FilterMode::Lowpass
    } else if t == 1 {
        FilterMode::Highpass
    } else if t == 2 {
        FilterMode::Bandpass
    } else if t == 3 {
        FilterMode::Notch
    } else if t == 4 {
        FilterMode::Peak
    } else {
        FilterMode::NormalizedBandpass
    }
}

/// Tag of a circuit in the serialized form.
pub open spec fn circuit_tag_spec(c: CircuitMode) -> int {
    match c {
        CircuitMode::Svf => 0,
        CircuitMode::Ladder => 1,
    }
}

/// A nonnegative 32-bit value as four little-endian bytes.
pub open spec fn u32_le_spec(v: int) -> Seq<u8> {
    seq![
        (v % 256) as u8,
        ((v / 256) % 256) as u8,
        ((v / 65536) % 256) as u8,
        ((v / 16777216) % 256) as u8,
    ]
}

/// The value four little-endian bytes denote.
pub open spec fn u32_from_le_spec(b0: u8, b1: u8, b2: u8, b3: u8) -> int {
    b0 + 256 * b1 + 65536 * b2 + 16777216 * b3
}

/// Little-endian round trip for 32-bit values.
pub proof fn lemma_u32_le_roundtrip(v: int)
    requires
        0 <= v < 4294967296,
    ensures
        ({
            let b = u32_le_spec(v);
            u32_from_le_spec(b[0], b[1], b[2], b[3]) == v
        }),
{
    lemma_fundamental_div_mod(v, 256);
    lemma_fundamental_div_mod(v / 256, 256);
    lemma_fundamental_div_mod(v / 65536, 256);
    lemma_div_denominator(v, 256, 256);
    lemma_div_denominator(v, 65536, 256);
    lemma_multiply_divide_lt(v, 16777216, 256);
}

/// The serialized form of a parameter set.
pub open spec fn serialize_params_spec(p: FilterParams) -> Seq<u8> {
    u32_le_spec(p.cutoff_mhz as int) + u32_le_spec(p.resonance as int) + u32_le_spec(
        p.drive as int,
    ) + u32_le_spec(p.sample_rate_hz as int) + seq![
        mode_tag_spec(p.mode) as u8,
        circuit_tag_spec(p.circuit) as u8,
        p.slope,
    ]
}

/// The parameter set a byte string denotes, with coefficients derived anew;
/// `None` exactly when the length or any field is out of range.
pub open spec fn parse_params_spec(b: Seq<u8>) -> Option<FilterParams> {
    if b.len() != SNAPSHOT_LEN {
        Option::None
    } else {
        let cutoff = u32_from_le_spec(b[0], b[1], b[2], b[3]);
        let res = u32_from_le_spec(b[4], b[5], b[6], b[7]);
        let drive = u32_from_le_spec(b[8], b[9], b[10], b[11]);
        let sr = u32_from_le_spec(b[12], b[13], b[14], b[15]);
        if SR_MIN <= sr && sr <= SR_MAX && CUTOFF_MIN_MHZ <= cutoff && cutoff <= cutoff_max_spec(sr)
            && res <= FX_ONE && drive <= FX_ONE && b[16] < 6 && b[17] < 2 && 1 <= b[18] && b[18]
            <= 4 {
            Option::Some(
                FilterParams {
                    sample_rate_hz: sr as u32,
                    cutoff_mhz: cutoff as i64,
                    resonance: res as i64,
                    drive: drive as i64,
                    mode: mode_from_tag_spec(b[16] as int),
                    circuit: if b[17] == 0 {
                        CircuitMode::Svf
                    } else {
                        CircuitMode::Ladder
                    },
                    slope: b[18],
                    g: g_spec(cutoff, sr) as i64,
                    k_svf: k_svf_spec(res) as i64,
                    k_ladder: k_ladder_spec(res) as i64,
                },
            )
        } else {
            Option::None
        }
    }
}

/// Snapshot/restore round trip: parsing the serialized form of a
/// well-formed parameter set reproduces it exactly.
pub proof fn lemma_params_roundtrip(p: FilterParams)
    requires
        p.wf(),
    ensures
        parse_params_spec(serialize_params_spec(p)) == Option::Some(p),
{
    let b = serialize_params_spec(p);
    assert(b.len() == SNAPSHOT_LEN);
    lemma_u32_le_roundtrip(p.cutoff_mhz as int);
    lemma_u32_le_roundtrip(p.resonance as int);
    lemma_u32_le_roundtrip(p.drive as int);
    lemma_u32_le_roundtrip(p.sample_rate_hz as int);
    assert(b[0] == u32_le_spec(p.cutoff_mhz as int)[0]);
    assert(b[1] == u32_le_spec(p.cutoff_mhz as int)[1]);
    assert(b[2] == u32_le_spec(p.cutoff_mhz as int)[2]);
    assert(b[3] == u32_le_spec(p.cutoff_mhz as int)[3]);
    assert(b[4] == u32_le_spec(p.resonance as int)[0]);
    assert(b[5] == u32_le_spec(p.resonance as int)[1]);
    assert(b[6] == u32_le_spec(p.resonance as int)[2]);
    assert(b[7] == u32_le_spec(p.resonance as int)[3]);
    assert(b[8] == u32_le_spec(p.drive as int)[0]);
    assert(b[9] == u32_le_spec(p.drive as int)[1]);
    assert(b[10] == u32_le_spec(p.drive as int)[2]);
    assert(b[11] == u32_le_spec(p.drive as int)[3]);
    assert(b[12] == u32_le_spec(p.sample_rate_hz as int)[0]);
    assert(b[13] == u32_le_spec(p.sample_rate_hz as int)[1]);
    assert(b[14] == u32_le_spec(p.sample_rate_hz as int)[2]);
    assert(b[15] == u32_le_spec(p.sample_rate_hz as int)[3]);
    lemma_g_bounds(p.cutoff_mhz as int, p.sample_rate_hz as int);
    lemma_tdiv_bounds(p.resonance as int * 39, 10);
    lemma_tdiv_upper(p.resonance as int * 39, 10, 4 * FX_ONE as int);
    let q = parse_params_spec(b).unwrap();
    assert(q.mode == p.mode);
    assert(q == p);
}

fn push_u32_le(out: &mut Vec<u8>, v: u32)
    ensures
        final(out)@ == old(out)@ + u32_le_spec(v as int),
{
    out.push((v % 256) as u8);
    out.push(((v / 256) % 256) as u8);
    out.push(((v / 65536) % 256) as u8);
    out.push(((v / 16777216) % 256) as u8);
    proof {
        assert(out@ =~= old(out)@ + u32_le_spec(v as int));
    }
}

fn read_u32_le(b0: u8, b1: u8, b2: u8, b3: u8) -> (v: u32)
    ensures
        v == u32_from_le_spec(b0, b1, b2, b3),
{
    (b0 as u32) + 256 * (b1 as u32) + 65536 * (b2 as u32) + 16777216 * (b3 as u32)
}

impl FilterEngine {
    /// Snapshot the parameter set as an opaque byte string.
    pub fn serialize_parameters(&self) -> (b: Vec<u8>)
        requires
            self.wf(),
        ensures
            b@ == serialize_params_spec(self.params),
    {
        let mut out: Vec<u8> = Vec::new();
        push_u32_le(&mut out, self.params.cutoff_mhz as u32);
        push_u32_le(&mut out, self.params.resonance as u32);
        push_u32_le(&mut out, self.params.drive as u32);
        push_u32_le(&mut out, self.params.sample_rate_hz);
        let mode_tag: u8 = match self.params.mode {
            FilterMode::Lowpass => 0,
            FilterMode::Highpass => 1,
            FilterMode::Bandpass => 2,
            FilterMode::Notch => 3,
            FilterMode::Peak => 4,
            FilterMode::NormalizedBandpass => 5,
        };
        out.push(mode_tag);
        let circuit_tag: u8 = match self.params.circuit {
            CircuitMode::Svf => 0,
            CircuitMode::Ladder => 1,
        };
        out.push(circuit_tag);
        out.push(self.params.slope);
        proof {
            assert(out@ =~= serialize_params_spec(self.params));
        }
        out
    }

    /// Restore a snapshot: on success the parameter set is replaced with
    /// its coefficients derived anew, every glide is cancelled at the
    /// restored values, and the integrator state is kept (restores stay
    /// click-free); a malformed snapshot changes nothing and reports
    /// failure.
    pub fn restore_parameters(&mut self, bytes: &[u8]) -> (ok: bool)
        requires
            old(self).wf(),
        ensures
            final(self).wf(),
            ok == parse_params_spec(bytes@) is Some,
            ok ==> final(self).params == parse_params_spec(bytes@).unwrap(),
            !ok ==> (*final(self)) == (*old(self)),
            final(self).svf == old(self).svf,
            final(self).ladder == old(self).ladder,
            final(self).solver == old(self).solver,
            ok ==> !final(self).cutoff_sm.is_smoothing_spec(),
            ok ==> !final(self).res_sm.is_smoothing_spec(),
            ok ==> !final(self).drive_sm.is_smoothing_spec(),
    {
        if bytes.len() != SNAPSHOT_LEN {
            return false;
        }
        let cutoff = read_u32_le(bytes[0], bytes[1], bytes[2], bytes[3]);
        let res = read_u32_le(bytes[4], bytes[5], bytes[6], bytes[7]);
        let drive = read_u32_le(bytes[8], bytes[9], bytes[10], bytes[11]);
        let sr = read_u32_le(bytes[12], bytes[13], bytes[14], bytes[15]);
        let mode_tag = bytes[16];
        let circuit_tag = bytes[17];
        let slope = bytes[18];
        let nyq: i64 = 490 * (sr as i64);
        let hi: i64 = if nyq < CUTOFF_MAX_MHZ {
            nyq
        } else {
            CUTOFF_MAX_MHZ
        };
        if !(SR_MIN <= sr && sr <= SR_MAX) {
            return false;
        }
        if !(CUTOFF_MIN_MHZ <= cutoff as i64 && cutoff as i64 <= hi) {
            return false;
        }
        if !(res as i64 <= FX_ONE && drive as i64 <= FX_ONE) {
            return false;
        }
        if !(mode_tag < 6 && circuit_tag < 2 && 1 <= slope && slope <= 4) {
            return false;
        }
        let mode = if mode_tag == 0 {
            FilterMode::Lowpass
        } else if mode_tag == 1 {
            FilterMode::Highpass
        } else if mode_tag == 2 {
            FilterMode::Bandpass
        } else if mode_tag == 3 {
            FilterMode::Notch
        } else if mode_tag == 4 {
            FilterMode::Peak
        } else {
            FilterMode::NormalizedBandpass
        };
        let circuit = if circuit_tag == 0 {
            CircuitMode::Svf
        } else {
            CircuitMode::Ladder
        };
        self.params = FilterParams {
            sample_rate_hz: sr,
            cutoff_mhz: cutoff as i64,
            resonance: res as i64,
            drive: drive as i64,
            mode,
            circuit,
            slope,
            g: derive_g(cutoff as i64, sr),
            k_svf: derive_k_svf(res as i64),
            k_ladder: derive_k_ladder(res as i64),
        };
        self.cutoff_sm = Smoother::with_value(cutoff as i64);
        self.res_sm = Smoother::with_value(res as i64);
        self.drive_sm = Smoother::with_value(drive as i64);
        true
    }
}

} // verus!
