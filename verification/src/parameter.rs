//! The parameter model: the fixed set of synthesis-tunable parameters, their
//! engine identifiers, inclusive legal ranges, documented baselines, and
//! validation of candidate values before they may reach the engine.

use vstd::prelude::*;

use crate::error::Error;

verus! {

/// Largest legal amplitude value.
pub const MAX_AMPLITUDE: u32 = 100;

/// Largest legal pitch value.
pub const MAX_PITCH: u32 = 100;

/// Largest legal pitch-range value.
pub const MAX_PITCH_RANGE: u32 = 100;

/// Largest legal word-gap value.
pub const MAX_WORD_GAP: u32 = 100;

/// Smallest legal speed value.
pub const MIN_SPEED: u32 = 80;

/// Largest legal speed value.
pub const MAX_SPEED: u32 = 450;

/// A synthesis parameter of the engine.  Parameters are engine-global state;
/// each has a numeric engine identifier, an inclusive legal range, and a
/// documented baseline value.
#[derive(Clone, Copy, Debug, PartialEq, Eq, Structural)]
pub enum EspeakParam {
    Amplitude,
    Pitch,
    PitchRange,
    Speed,
    WordGap,
}

/// Smallest value the engine accepts for `p`.
pub open spec fn param_min(p: EspeakParam) -> u32 {
    match p {
        EspeakParam::Speed => MIN_SPEED,
        _ => 0,
    }
}

/// Largest value the engine accepts for `p`.
pub open spec fn param_max(p: EspeakParam) -> u32 {
    match p {
        EspeakParam::Amplitude => MAX_AMPLITUDE,
        EspeakParam::Pitch => MAX_PITCH,
        EspeakParam::PitchRange => MAX_PITCH_RANGE,
        EspeakParam::Speed => MAX_SPEED,
        EspeakParam::WordGap => MAX_WORD_GAP,
    }
}

/// Whether `v` lies within the inclusive legal range of `p`.
pub open spec fn param_in_range(p: EspeakParam, v: u32) -> bool {
    param_min(p) <= v && v <= param_max(p)
}

/// The numeric identifier under which the engine addresses `p`.
pub open spec fn param_engine_code(p: EspeakParam) -> u32 {
    match p {
        EspeakParam::Amplitude => 2,
        EspeakParam::Pitch => 3,
        EspeakParam::PitchRange => 4,
        EspeakParam::Speed => 1,
        EspeakParam::WordGap => 7,
    }
}

/// The documented baseline (the engine's default) for `p`.
pub open spec fn param_baseline(p: EspeakParam) -> u32 {
    match p {
        EspeakParam::Amplitude => 100,
        EspeakParam::Pitch => 50,
        EspeakParam::PitchRange => 50,
        EspeakParam::Speed => 175,
        EspeakParam::WordGap => 0,
    }
}

/// The display name of `p`, as error messages spell it.
pub open spec fn param_name(p: EspeakParam) -> Seq<char> {
    match p {
        EspeakParam::Amplitude => "Amplitude"@,
        EspeakParam::Pitch => "Pitch"@,
        EspeakParam::PitchRange => "PitchRange"@,
        EspeakParam::Speed => "Speed"@,
        EspeakParam::WordGap => "WordGap"@,
    }
}

impl EspeakParam {
    /// The numeric identifier under which the engine addresses this parameter.
    pub fn engine_code(&self) -> (c: u32)
        ensures
            c == param_engine_code(*self),
    {
        match self {
            EspeakParam::Amplitude => 2,
            EspeakParam::Pitch => 3,
            EspeakParam::PitchRange => 4,
            EspeakParam::Speed => 1,
            EspeakParam::WordGap => 7,
        }
    }

    /// Smallest value of this parameter's inclusive legal range.
    pub fn min_value(&self) -> (r: u32)
        ensures
            r == param_min(*self),
    {
        match self {
            EspeakParam::Speed => MIN_SPEED,
            _ => 0,
        }
    }

    /// Largest value of this parameter's inclusive legal range.
    pub fn max_value(&self) -> (r: u32)
        ensures
            r == param_max(*self),
    {
        match self {
            EspeakParam::Amplitude => MAX_AMPLITUDE,
            EspeakParam::Pitch => MAX_PITCH,
            EspeakParam::PitchRange => MAX_PITCH_RANGE,
            EspeakParam::Speed => MAX_SPEED,
            EspeakParam::WordGap => MAX_WORD_GAP,
        }
    }

    /// The documented baseline (the engine's default) for this parameter.
    pub fn baseline(&self) -> (r: u32)
        ensures
            r == param_baseline(*self),
    {
        match self {
            EspeakParam::Amplitude => 100,
            EspeakParam::Pitch => 50,
            EspeakParam::PitchRange => 50,
            EspeakParam::Speed => 175,
            EspeakParam::WordGap => 0,
        }
    }

    /// The display name of this parameter, as error messages spell it.
    pub fn name(&self) -> (r: &'static str)
        ensures
            r@ == param_name(*self),
    {
        match self {
            EspeakParam::Amplitude => "Amplitude",
            EspeakParam::Pitch => "Pitch",
            EspeakParam::PitchRange => "PitchRange",
            EspeakParam::Speed => "Speed",
            EspeakParam::WordGap => "WordGap",
        }
    }
}

/// Succeeds exactly when `value` lies within `param`'s inclusive legal range;
/// otherwise reports exactly the offending parameter and value.
pub fn validate_param_value(param: EspeakParam, value: u32) -> (r: Result<(), Error>)
    ensures
        r is Ok <==> param_in_range(param, value),
        !param_in_range(param, value) ==> r == Err::<(), Error>(
            Error::InvalidParamValue(param, value),
        ),
{
    let min = param.min_value();
    let max = param.max_value();
    if value < min || value > max {
        return Err(Error::InvalidParamValue(param, value));
    }
    Ok(())
}

} // verus!
