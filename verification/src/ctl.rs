//! The request codes of the C library's control calls (`speex_preprocess_ctl`
//! and `speex_echo_ctl`), and which parameter each public getter and setter
//! reaches through them.
//!
//! The C headers pair every request: the one that writes a parameter has an
//! even code, the one that reads it the next, odd code.

use vstd::prelude::*;

verus! {

/// Request codes of `speex_preprocess_ctl`, as `speex_preprocess.h` defines them.
pub const SPEEX_PREPROCESS_SET_DENOISE: i32 = 0;
pub const SPEEX_PREPROCESS_GET_DENOISE: i32 = 1;
pub const SPEEX_PREPROCESS_SET_AGC: i32 = 2;
pub const SPEEX_PREPROCESS_GET_AGC: i32 = 3;
pub const SPEEX_PREPROCESS_SET_VAD: i32 = 4;
pub const SPEEX_PREPROCESS_GET_VAD: i32 = 5;
pub const SPEEX_PREPROCESS_SET_AGC_LEVEL: i32 = 6;
pub const SPEEX_PREPROCESS_GET_AGC_LEVEL: i32 = 7;
pub const SPEEX_PREPROCESS_SET_DEREVERB: i32 = 8;
pub const SPEEX_PREPROCESS_GET_DEREVERB: i32 = 9;
pub const SPEEX_PREPROCESS_SET_DEREVERB_LEVEL: i32 = 10;
pub const SPEEX_PREPROCESS_GET_DEREVERB_LEVEL: i32 = 11;
pub const SPEEX_PREPROCESS_SET_DEREVERB_DECAY: i32 = 12;
pub const SPEEX_PREPROCESS_GET_DEREVERB_DECAY: i32 = 13;
pub const SPEEX_PREPROCESS_SET_PROB_START: i32 = 14;
pub const SPEEX_PREPROCESS_GET_PROB_START: i32 = 15;
pub const SPEEX_PREPROCESS_SET_PROB_CONTINUE: i32 = 16;
pub const SPEEX_PREPROCESS_GET_PROB_CONTINUE: i32 = 17;
pub const SPEEX_PREPROCESS_SET_NOISE_SUPPRESS: i32 = 18;
pub const SPEEX_PREPROCESS_GET_NOISE_SUPPRESS: i32 = 19;
pub const SPEEX_PREPROCESS_SET_ECHO_SUPPRESS: i32 = 20;
pub const SPEEX_PREPROCESS_GET_ECHO_SUPPRESS: i32 = 21;
pub const SPEEX_PREPROCESS_SET_ECHO_SUPPRESS_ACTIVE: i32 = 22;
pub const SPEEX_PREPROCESS_GET_ECHO_SUPPRESS_ACTIVE: i32 = 23;
pub const SPEEX_PREPROCESS_SET_ECHO_STATE: i32 = 24;
pub const SPEEX_PREPROCESS_GET_ECHO_STATE: i32 = 25;
pub const SPEEX_PREPROCESS_SET_AGC_INCREMENT: i32 = 26;
pub const SPEEX_PREPROCESS_GET_AGC_INCREMENT: i32 = 27;
pub const SPEEX_PREPROCESS_SET_AGC_DECREMENT: i32 = 28;
pub const SPEEX_PREPROCESS_GET_AGC_DECREMENT: i32 = 29;
pub const SPEEX_PREPROCESS_SET_AGC_MAX_GAIN: i32 = 30;
pub const SPEEX_PREPROCESS_GET_AGC_MAX_GAIN: i32 = 31;
pub const SPEEX_PREPROCESS_GET_AGC_LOUDNESS: i32 = 33;
pub const SPEEX_PREPROCESS_GET_AGC_GAIN: i32 = 35;
pub const SPEEX_PREPROCESS_GET_PSD_SIZE: i32 = 37;
pub const SPEEX_PREPROCESS_GET_NOISE_PSD_SIZE: i32 = 41;
pub const SPEEX_PREPROCESS_GET_PROB: i32 = 45;
pub const SPEEX_PREPROCESS_SET_AGC_TARGET: i32 = 46;
pub const SPEEX_PREPROCESS_GET_AGC_TARGET: i32 = 47;

/// Request codes of `speex_echo_ctl`, as `speex_echo.h` defines them.
pub const SPEEX_ECHO_GET_FRAME_SIZE: i32 = 3;
pub const SPEEX_ECHO_SET_SAMPLING_RATE: i32 = 24;
pub const SPEEX_ECHO_GET_SAMPLING_RATE: i32 = 25;
pub const SPEEX_ECHO_GET_IMPULSE_RESPONSE_SIZE: i32 = 27;

/// What kind of value travels through the control call for a parameter.
#[derive(Clone, Copy, Debug, PartialEq, Eq, Structural)]
pub enum ValueKind {
    /// An on/off setting, passed as a C `int` of 1 or 0.
    Flag,
    /// A C `int`.
    Int,
    /// A C `float`.
    Real,
    /// A pointer to an echo canceller state.
    EchoState,
}

/// The parameters of the preprocessor that the library reads or writes.
#[derive(Clone, Copy, Debug, PartialEq, Eq, Structural)]
pub enum PreprocessParam {
    Denoise,
    Agc,
    Vad,
    AgcLevel,
    Dereverb,
    DereverbLevel,
    DereverbDecay,
    ProbStart,
    ProbContinue,
    NoiseSuppress,
    EchoSuppress,
    EchoSuppressActive,
    EchoState,
    AgcIncrement,
    AgcDecrement,
    AgcMaxGain,
    AgcLoudness,
    AgcGain,
    PsdSize,
    NoisePsdSize,
    Prob,
    AgcTarget,
}

/// The request code that reads a preprocessor parameter.
pub open spec fn preprocess_get_code(p: PreprocessParam) -> i32 {
    match p {
        PreprocessParam::Denoise => SPEEX_PREPROCESS_GET_DENOISE,
        PreprocessParam::Agc => SPEEX_PREPROCESS_GET_AGC,
        PreprocessParam::Vad => SPEEX_PREPROCESS_GET_VAD,
        PreprocessParam::AgcLevel => SPEEX_PREPROCESS_GET_AGC_LEVEL,
        PreprocessParam::Dereverb => SPEEX_PREPROCESS_GET_DEREVERB,
        PreprocessParam::DereverbLevel => SPEEX_PREPROCESS_GET_DEREVERB_LEVEL,
        PreprocessParam::DereverbDecay => SPEEX_PREPROCESS_GET_DEREVERB_DECAY,
        PreprocessParam::ProbStart => SPEEX_PREPROCESS_GET_PROB_START,
        PreprocessParam::ProbContinue => SPEEX_PREPROCESS_GET_PROB_CONTINUE,
        PreprocessParam::NoiseSuppress => SPEEX_PREPROCESS_GET_NOISE_SUPPRESS,
        PreprocessParam::EchoSuppress => SPEEX_PREPROCESS_GET_ECHO_SUPPRESS,
        PreprocessParam::EchoSuppressActive => SPEEX_PREPROCESS_GET_ECHO_SUPPRESS_ACTIVE,
        PreprocessParam::EchoState => SPEEX_PREPROCESS_GET_ECHO_STATE,
        PreprocessParam::AgcIncrement => SPEEX_PREPROCESS_GET_AGC_INCREMENT,
        PreprocessParam::AgcDecrement => SPEEX_PREPROCESS_GET_AGC_DECREMENT,
        PreprocessParam::AgcMaxGain => SPEEX_PREPROCESS_GET_AGC_MAX_GAIN,
        PreprocessParam::AgcLoudness => SPEEX_PREPROCESS_GET_AGC_LOUDNESS,
        PreprocessParam::AgcGain => SPEEX_PREPROCESS_GET_AGC_GAIN,
        PreprocessParam::PsdSize => SPEEX_PREPROCESS_GET_PSD_SIZE,
        PreprocessParam::NoisePsdSize => SPEEX_PREPROCESS_GET_NOISE_PSD_SIZE,
        PreprocessParam::Prob => SPEEX_PREPROCESS_GET_PROB,
        PreprocessParam::AgcTarget => SPEEX_PREPROCESS_GET_AGC_TARGET,
    }
}

/// Whether the library offers a setter for a preprocessor parameter; the
/// others (measurements of the signal and sizes) are read only.
pub open spec fn preprocess_settable(p: PreprocessParam) -> bool {
    match p {
        PreprocessParam::AgcLoudness => false,
        PreprocessParam::AgcGain => false,
        PreprocessParam::PsdSize => false,
        PreprocessParam::NoisePsdSize => false,
        PreprocessParam::Prob => false,
        _ => true,
    }
}

/// The request code that writes a preprocessor parameter, where there is one.
pub open spec fn preprocess_set_code(p: PreprocessParam) -> Option<i32> {
    if preprocess_settable(p) {
        Some((preprocess_get_code(p) - 1) as i32)
    } else {
        None
    }
}

/// The kind of value that a preprocessor parameter carries.
pub open spec fn preprocess_value_kind(p: PreprocessParam) -> ValueKind {
    match p {
        PreprocessParam::Denoise => ValueKind::Flag,
        PreprocessParam::Agc => ValueKind::Flag,
        PreprocessParam::Vad => ValueKind::Flag,
        PreprocessParam::Dereverb => ValueKind::Flag,
        PreprocessParam::AgcLevel => ValueKind::Real,
        PreprocessParam::DereverbLevel => ValueKind::Real,
        PreprocessParam::DereverbDecay => ValueKind::Real,
        PreprocessParam::EchoState => ValueKind::EchoState,
        _ => ValueKind::Int,
    }
}

impl PreprocessParam {
    /// The request code that reads this parameter.
    pub fn get_code(self) -> (c: i32)
        ensures
            c == preprocess_get_code(self),
    {
        match self {
            PreprocessParam::Denoise => SPEEX_PREPROCESS_GET_DENOISE,
            PreprocessParam::Agc => SPEEX_PREPROCESS_GET_AGC,
            PreprocessParam::Vad => SPEEX_PREPROCESS_GET_VAD,
            PreprocessParam::AgcLevel => SPEEX_PREPROCESS_GET_AGC_LEVEL,
            PreprocessParam::Dereverb => SPEEX_PREPROCESS_GET_DEREVERB,
            PreprocessParam::DereverbLevel => SPEEX_PREPROCESS_GET_DEREVERB_LEVEL,
            PreprocessParam::DereverbDecay => SPEEX_PREPROCESS_GET_DEREVERB_DECAY,
            PreprocessParam::ProbStart => SPEEX_PREPROCESS_GET_PROB_START,
            PreprocessParam::ProbContinue => SPEEX_PREPROCESS_GET_PROB_CONTINUE,
            PreprocessParam::NoiseSuppress => SPEEX_PREPROCESS_GET_NOISE_SUPPRESS,
            PreprocessParam::EchoSuppress => SPEEX_PREPROCESS_GET_ECHO_SUPPRESS,
            PreprocessParam::EchoSuppressActive => SPEEX_PREPROCESS_GET_ECHO_SUPPRESS_ACTIVE,
            PreprocessParam::EchoState => SPEEX_PREPROCESS_GET_ECHO_STATE,
            PreprocessParam::AgcIncrement => SPEEX_PREPROCESS_GET_AGC_INCREMENT,
            PreprocessParam::AgcDecrement => SPEEX_PREPROCESS_GET_AGC_DECREMENT,
            PreprocessParam::AgcMaxGain => SPEEX_PREPROCESS_GET_AGC_MAX_GAIN,
            PreprocessParam::AgcLoudness => SPEEX_PREPROCESS_GET_AGC_LOUDNESS,
            PreprocessParam::AgcGain => SPEEX_PREPROCESS_GET_AGC_GAIN,
            PreprocessParam::PsdSize => SPEEX_PREPROCESS_GET_PSD_SIZE,
            PreprocessParam::NoisePsdSize => SPEEX_PREPROCESS_GET_NOISE_PSD_SIZE,
            PreprocessParam::Prob => SPEEX_PREPROCESS_GET_PROB,
            PreprocessParam::AgcTarget => SPEEX_PREPROCESS_GET_AGC_TARGET,
        }
    }

    /// The request code that writes this parameter, or `None` for a
    /// parameter that can only be read.
    pub fn set_code(self) -> (c: Option<i32>)
        ensures
            c == preprocess_set_code(self),
    {
        match self {
            PreprocessParam::AgcLoudness | PreprocessParam::AgcGain | PreprocessParam::PsdSize
            | PreprocessParam::NoisePsdSize | PreprocessParam::Prob => None,
            PreprocessParam::Denoise => Some(SPEEX_PREPROCESS_SET_DENOISE),
            PreprocessParam::Agc => Some(SPEEX_PREPROCESS_SET_AGC),
            PreprocessParam::Vad => Some(SPEEX_PREPROCESS_SET_VAD),
            PreprocessParam::AgcLevel => Some(SPEEX_PREPROCESS_SET_AGC_LEVEL),
            PreprocessParam::Dereverb => Some(SPEEX_PREPROCESS_SET_DEREVERB),
            PreprocessParam::DereverbLevel => Some(SPEEX_PREPROCESS_SET_DEREVERB_LEVEL),
            PreprocessParam::DereverbDecay => Some(SPEEX_PREPROCESS_SET_DEREVERB_DECAY),
            PreprocessParam::ProbStart => Some(SPEEX_PREPROCESS_SET_PROB_START),
            PreprocessParam::ProbContinue => Some(SPEEX_PREPROCESS_SET_PROB_CONTINUE),
            PreprocessParam::NoiseSuppress => Some(SPEEX_PREPROCESS_SET_NOISE_SUPPRESS),
            PreprocessParam::EchoSuppress => Some(SPEEX_PREPROCESS_SET_ECHO_SUPPRESS),
            PreprocessParam::EchoSuppressActive => Some(SPEEX_PREPROCESS_SET_ECHO_SUPPRESS_ACTIVE),
            PreprocessParam::EchoState => Some(SPEEX_PREPROCESS_SET_ECHO_STATE),
            PreprocessParam::AgcIncrement => Some(SPEEX_PREPROCESS_SET_AGC_INCREMENT),
            PreprocessParam::AgcDecrement => Some(SPEEX_PREPROCESS_SET_AGC_DECREMENT),
            PreprocessParam::AgcMaxGain => Some(SPEEX_PREPROCESS_SET_AGC_MAX_GAIN),
            PreprocessParam::AgcTarget => Some(SPEEX_PREPROCESS_SET_AGC_TARGET),
        }
    }

    /// The kind of value that this parameter carries.
    pub fn value_kind(self) -> (k: ValueKind)
        ensures
            k == preprocess_value_kind(self),
    {
        match self {
            PreprocessParam::Denoise | PreprocessParam::Agc | PreprocessParam::Vad
            | PreprocessParam::Dereverb => ValueKind::Flag,
            PreprocessParam::AgcLevel | PreprocessParam::DereverbLevel
            | PreprocessParam::DereverbDecay => ValueKind::Real,
            PreprocessParam::EchoState => ValueKind::EchoState,
            _ => ValueKind::Int,
        }
    }
}

/// The parameters of the echo canceller that the library reads or writes.
#[derive(Clone, Copy, Debug, PartialEq, Eq, Structural)]
pub enum EchoParam {
    FrameSize,
    SamplingRate,
    ImpulseResponseSize,
}

/// The request code that reads an echo canceller parameter.
pub open spec fn echo_get_code(p: EchoParam) -> i32 {
    match p {
        EchoParam::FrameSize => SPEEX_ECHO_GET_FRAME_SIZE,
        EchoParam::SamplingRate => SPEEX_ECHO_GET_SAMPLING_RATE,
        EchoParam::ImpulseResponseSize => SPEEX_ECHO_GET_IMPULSE_RESPONSE_SIZE,
    }
}

/// The request code that writes an echo canceller parameter: only the
/// sampling rate has a setter.
pub open spec fn echo_set_code(p: EchoParam) -> Option<i32> {
    match p {
        EchoParam::SamplingRate => Some(SPEEX_ECHO_SET_SAMPLING_RATE),
        _ => None,
    }
}

impl EchoParam {
    /// The request code that reads this parameter.
    pub fn get_code(self) -> (c: i32)
        ensures
            c == echo_get_code(self),
    {
        match self {
            EchoParam::FrameSize => SPEEX_ECHO_GET_FRAME_SIZE,
            EchoParam::SamplingRate => SPEEX_ECHO_GET_SAMPLING_RATE,
            EchoParam::ImpulseResponseSize => SPEEX_ECHO_GET_IMPULSE_RESPONSE_SIZE,
        }
    }

    /// The request code that writes this parameter, or `None` for a
    /// parameter that can only be read.
    pub fn set_code(self) -> (c: Option<i32>)
        ensures
            c == echo_set_code(self),
    {
        match self {
            EchoParam::SamplingRate => Some(SPEEX_ECHO_SET_SAMPLING_RATE),
            _ => None,
        }
    }
}

/// Every preprocessor parameter is read with an odd code; a parameter with a
/// setter is written with the even code just below the one that reads it.
pub proof fn lemma_preprocess_codes_paired(p: PreprocessParam)
    ensures
        preprocess_get_code(p) % 2 == 1,
        preprocess_set_code(p) matches Some(s) ==> s % 2 == 0 && s + 1 == preprocess_get_code(p),
{
}

/// Two different preprocessor parameters never share a request code, and no
/// request that writes is also one that reads.
pub proof fn lemma_preprocess_codes_distinct(p: PreprocessParam, q: PreprocessParam)
    ensures
        p != q ==> preprocess_get_code(p) != preprocess_get_code(q),
        p != q && preprocess_settable(p) && preprocess_settable(q) ==> preprocess_set_code(p)
            != preprocess_set_code(q),
        preprocess_set_code(p) matches Some(s) ==> s != preprocess_get_code(q),
{
}

/// The same for the echo canceller: reads are odd, the write of the sampling
/// rate is the even code just below its read, and codes are not shared.
pub proof fn lemma_echo_codes(p: EchoParam, q: EchoParam)
    ensures
        echo_get_code(p) % 2 == 1,
        echo_set_code(p) matches Some(s) ==> s % 2 == 0 && s + 1 == echo_get_code(p),
        p != q ==> echo_get_code(p) != echo_get_code(q),
        echo_set_code(p) matches Some(s) ==> s != echo_get_code(q),
{
}

/// Each read request goes to the parameter that `speex_preprocess.h` names
/// for it, and to no other: the getter of a parameter sends exactly that
/// parameter's `SPEEX_PREPROCESS_GET_..` code.
pub proof fn lemma_preprocess_get_codes_follow_header(p: PreprocessParam)
    ensures
        (preprocess_get_code(p) == 1) <==> (p == PreprocessParam::Denoise),
        (preprocess_get_code(p) == 3) <==> (p == PreprocessParam::Agc),
        (preprocess_get_code(p) == 5) <==> (p == PreprocessParam::Vad),
        (preprocess_get_code(p) == 7) <==> (p == PreprocessParam::AgcLevel),
        (preprocess_get_code(p) == 9) <==> (p == PreprocessParam::Dereverb),
        (preprocess_get_code(p) == 11) <==> (p == PreprocessParam::DereverbLevel),
        (preprocess_get_code(p) == 13) <==> (p == PreprocessParam::DereverbDecay),
        (preprocess_get_code(p) == 15) <==> (p == PreprocessParam::ProbStart),
        (preprocess_get_code(p) == 17) <==> (p == PreprocessParam::ProbContinue),
        (preprocess_get_code(p) == 19) <==> (p == PreprocessParam::NoiseSuppress),
        (preprocess_get_code(p) == 21) <==> (p == PreprocessParam::EchoSuppress),
        (preprocess_get_code(p) == 23) <==> (p == PreprocessParam::EchoSuppressActive),
        (preprocess_get_code(p) == 25) <==> (p == PreprocessParam::EchoState),
        (preprocess_get_code(p) == 27) <==> (p == PreprocessParam::AgcIncrement),
        (preprocess_get_code(p) == 29) <==> (p == PreprocessParam::AgcDecrement),
        (preprocess_get_code(p) == 31) <==> (p == PreprocessParam::AgcMaxGain),
        (preprocess_get_code(p) == 33) <==> (p == PreprocessParam::AgcLoudness),
        (preprocess_get_code(p) == 35) <==> (p == PreprocessParam::AgcGain),
        (preprocess_get_code(p) == 37) <==> (p == PreprocessParam::PsdSize),
        (preprocess_get_code(p) == 41) <==> (p == PreprocessParam::NoisePsdSize),
        (preprocess_get_code(p) == 45) <==> (p == PreprocessParam::Prob),
        (preprocess_get_code(p) == 47) <==> (p == PreprocessParam::AgcTarget),
{
}

/// Each write request goes to the parameter that `speex_preprocess.h` names
/// for it, and to no other; exactly the measurements (AGC loudness, AGC gain,
/// the two spectrum sizes and the speech probability) have no write request.
pub proof fn lemma_preprocess_set_codes_follow_header(p: PreprocessParam)
    ensures
        (preprocess_set_code(p) == Some(0i32)) <==> (p == PreprocessParam::Denoise),
        (preprocess_set_code(p) == Some(2i32)) <==> (p == PreprocessParam::Agc),
        (preprocess_set_code(p) == Some(4i32)) <==> (p == PreprocessParam::Vad),
        (preprocess_set_code(p) == Some(6i32)) <==> (p == PreprocessParam::AgcLevel),
        (preprocess_set_code(p) == Some(8i32)) <==> (p == PreprocessParam::Dereverb),
        (preprocess_set_code(p) == Some(10i32)) <==> (p == PreprocessParam::DereverbLevel),
        (preprocess_set_code(p) == Some(12i32)) <==> (p == PreprocessParam::DereverbDecay),
        (preprocess_set_code(p) == Some(14i32)) <==> (p == PreprocessParam::ProbStart),
        (preprocess_set_code(p) == Some(16i32)) <==> (p == PreprocessParam::ProbContinue),
        (preprocess_set_code(p) == Some(18i32)) <==> (p == PreprocessParam::NoiseSuppress),
        (preprocess_set_code(p) == Some(20i32)) <==> (p == PreprocessParam::EchoSuppress),
        (preprocess_set_code(p) == Some(22i32)) <==> (p == PreprocessParam::EchoSuppressActive),
        (preprocess_set_code(p) == Some(24i32)) <==> (p == PreprocessParam::EchoState),
        (preprocess_set_code(p) == Some(26i32)) <==> (p == PreprocessParam::AgcIncrement),
        (preprocess_set_code(p) == Some(28i32)) <==> (p == PreprocessParam::AgcDecrement),
        (preprocess_set_code(p) == Some(30i32)) <==> (p == PreprocessParam::AgcMaxGain),
        (preprocess_set_code(p) == Some(46i32)) <==> (p == PreprocessParam::AgcTarget),
        preprocess_set_code(p) is None <==> (p == PreprocessParam::AgcLoudness || p
            == PreprocessParam::AgcGain || p == PreprocessParam::PsdSize || p
            == PreprocessParam::NoisePsdSize || p == PreprocessParam::Prob),
{
}

/// The on/off switches are exactly denoise, AGC, VAD and dereverb; the values
/// carried as C floats are exactly the AGC level and the dereverb level and
/// decay; only the echo state parameter carries an echo canceller.
pub proof fn lemma_preprocess_value_kinds(p: PreprocessParam)
    ensures
        preprocess_value_kind(p) == ValueKind::Flag <==> (p == PreprocessParam::Denoise || p
            == PreprocessParam::Agc || p == PreprocessParam::Vad || p
            == PreprocessParam::Dereverb),
        preprocess_value_kind(p) == ValueKind::Real <==> (p == PreprocessParam::AgcLevel || p
            == PreprocessParam::DereverbLevel || p == PreprocessParam::DereverbDecay),
        preprocess_value_kind(p) == ValueKind::EchoState <==> p == PreprocessParam::EchoState,
{
}

/// Each echo canceller request goes to the parameter that `speex_echo.h`
/// names for it; only the sampling rate can be written.
pub proof fn lemma_echo_codes_follow_header(p: EchoParam)
    ensures
        (echo_get_code(p) == 3) <==> (p == EchoParam::FrameSize),
        (echo_get_code(p) == 25) <==> (p == EchoParam::SamplingRate),
        (echo_get_code(p) == 27) <==> (p
            == EchoParam::ImpulseResponseSize),
        (echo_set_code(p) == Some(24i32)) <==> (p == EchoParam::SamplingRate),
        echo_set_code(p) is None <==> p != EchoParam::SamplingRate,
{
}

} // verus!
