use speexdsp::convert::{c_int_from_usize, flag_from_c_int, flag_to_c_int, usize_from_c_int};
use speexdsp::ctl::{EchoParam, PreprocessParam, ValueKind};
use speexdsp::error::{init_result, Error};

const ALL_PREPROCESS: [PreprocessParam; 22] = [
    PreprocessParam::Denoise,
    PreprocessParam::Agc,
    PreprocessParam::Vad,
    PreprocessParam::AgcLevel,
    PreprocessParam::Dereverb,
    PreprocessParam::DereverbLevel,
    PreprocessParam::DereverbDecay,
    PreprocessParam::ProbStart,
    PreprocessParam::ProbContinue,
    PreprocessParam::NoiseSuppress,
    PreprocessParam::EchoSuppress,
    PreprocessParam::EchoSuppressActive,
    PreprocessParam::EchoState,
    PreprocessParam::AgcIncrement,
    PreprocessParam::AgcDecrement,
    PreprocessParam::AgcMaxGain,
    PreprocessParam::AgcLoudness,
    PreprocessParam::AgcGain,
    PreprocessParam::PsdSize,
    PreprocessParam::NoisePsdSize,
    PreprocessParam::Prob,
    PreprocessParam::AgcTarget,
];

#[test]
fn error_message_is_failed_to_initialize() {
    assert_eq!(Error::FailedInit.message(), "Failed to initialize");
}

#[test]
fn init_result_fails_without_state() {
    assert_eq!(init_result::<u32>(None), Err(Error::FailedInit));
}

#[test]
fn init_result_keeps_the_state() {
    assert_eq!(init_result(Some(7u32)), Ok(7u32));
}

#[test]
fn sizes_pass_as_c_int() {
    assert_eq!(c_int_from_usize(160), 160);
    assert_eq!(c_int_from_usize(8000), 8000);
    assert_eq!(c_int_from_usize(i32::MAX as usize), i32::MAX);
}

#[test]
fn large_sizes_truncate_like_as() {
    let big: usize = (u32::MAX as usize) + 1;
    assert_eq!(c_int_from_usize(big), big as i32);
}

#[test]
fn c_int_results_widen() {
    assert_eq!(usize_from_c_int(1), 1);
    assert_eq!(usize_from_c_int(0), 0);
    assert_eq!(usize_from_c_int(-1), usize::MAX);
}

#[test]
fn flags_encode_as_one_and_zero() {
    assert_eq!(flag_to_c_int(true), 1);
    assert_eq!(flag_to_c_int(false), 0);
}

#[test]
fn flags_decode_any_nonzero_as_on() {
    assert!(flag_from_c_int(1));
    assert!(flag_from_c_int(-3));
    assert!(!flag_from_c_int(0));
}

#[test]
fn flag_round_trip() {
    for b in [true, false] {
        assert_eq!(flag_from_c_int(flag_to_c_int(b)), b);
    }
}

#[test]
fn preprocess_codes_match_the_header() {
    assert_eq!(PreprocessParam::Denoise.set_code(), Some(0));
    assert_eq!(PreprocessParam::Denoise.get_code(), 1);
    assert_eq!(PreprocessParam::AgcLevel.set_code(), Some(6));
    assert_eq!(PreprocessParam::EchoState.set_code(), Some(24));
    assert_eq!(PreprocessParam::EchoState.get_code(), 25);
    assert_eq!(PreprocessParam::AgcLoudness.get_code(), 33);
    assert_eq!(PreprocessParam::Prob.get_code(), 45);
    assert_eq!(PreprocessParam::AgcTarget.set_code(), Some(46));
    assert_eq!(PreprocessParam::AgcTarget.get_code(), 47);
}

#[test]
fn read_only_preprocess_params_have_no_setter() {
    for p in [
        PreprocessParam::AgcLoudness,
        PreprocessParam::AgcGain,
        PreprocessParam::PsdSize,
        PreprocessParam::NoisePsdSize,
        PreprocessParam::Prob,
    ] {
        assert_eq!(p.set_code(), None);
    }
}

#[test]
fn preprocess_codes_are_paired() {
    for p in ALL_PREPROCESS {
        assert_eq!(p.get_code() % 2, 1);
        if let Some(s) = p.set_code() {
            assert_eq!(s % 2, 0);
            assert_eq!(s + 1, p.get_code());
        }
    }
}

#[test]
fn preprocess_codes_are_distinct() {
    for (i, p) in ALL_PREPROCESS.iter().enumerate() {
        for (j, q) in ALL_PREPROCESS.iter().enumerate() {
            if i != j {
                assert_ne!(p.get_code(), q.get_code());
                if p.set_code().is_some() {
                    assert_ne!(p.set_code(), q.set_code());
                }
            }
            if let Some(s) = p.set_code() {
                assert_ne!(s, q.get_code());
            }
        }
    }
}

#[test]
fn preprocess_value_kinds() {
    assert_eq!(PreprocessParam::Denoise.value_kind(), ValueKind::Flag);
    assert_eq!(PreprocessParam::Vad.value_kind(), ValueKind::Flag);
    assert_eq!(PreprocessParam::AgcLevel.value_kind(), ValueKind::Real);
    assert_eq!(PreprocessParam::DereverbDecay.value_kind(), ValueKind::Real);
    assert_eq!(PreprocessParam::EchoState.value_kind(), ValueKind::EchoState);
    assert_eq!(PreprocessParam::NoiseSuppress.value_kind(), ValueKind::Int);
    assert_eq!(PreprocessParam::AgcGain.value_kind(), ValueKind::Int);
}

#[test]
fn echo_codes_match_the_header() {
    assert_eq!(EchoParam::FrameSize.get_code(), 3);
    assert_eq!(EchoParam::FrameSize.set_code(), None);
    assert_eq!(EchoParam::SamplingRate.set_code(), Some(24));
    assert_eq!(EchoParam::SamplingRate.get_code(), 25);
    assert_eq!(EchoParam::ImpulseResponseSize.get_code(), 27);
    assert_eq!(EchoParam::ImpulseResponseSize.set_code(), None);
}
