use espeak_synth::espeak_error_msg;
use espeak_synth::Error;
use espeak_synth::EspeakParam;
use espeak_synth::EE_BUFFER_FULL;
use espeak_synth::EE_INTERNAL_ERROR;
use espeak_synth::EE_NOT_FOUND;
use espeak_synth::EE_OK;

#[test]
fn espeak_variant_to_string_returns_expected() {
    assert_eq!(
        Error::Espeak(EE_INTERNAL_ERROR).message(),
        "espeak operation failed: internal error"
    );
    assert_eq!(
        Error::Espeak(EE_BUFFER_FULL).message(),
        "espeak operation failed: buffer full"
    );
    assert_eq!(
        Error::Espeak(EE_NOT_FOUND).message(),
        "espeak operation failed: not found"
    );
    assert_eq!(
        Error::Espeak(10).message(),
        "espeak operation failed: unknown error"
    );
}

#[test]
fn invalid_param_value_variant_to_string_returns_expected() {
    assert_eq!(
        Error::InvalidParamValue(EspeakParam::Amplitude, 666).message(),
        "invalid value for 'Amplitude': 666"
    );
    assert_eq!(
        Error::InvalidParamValue(EspeakParam::Pitch, 666).message(),
        "invalid value for 'Pitch': 666"
    );
    assert_eq!(
        Error::InvalidParamValue(EspeakParam::PitchRange, 666).message(),
        "invalid value for 'PitchRange': 666"
    );
    assert_eq!(
        Error::InvalidParamValue(EspeakParam::Speed, 666).message(),
        "invalid value for 'Speed': 666"
    );
    assert_eq!(
        Error::InvalidParamValue(EspeakParam::WordGap, 666).message(),
        "invalid value for 'WordGap': 666"
    );
}

#[test]
fn status_code_constants_match_engine_values() {
    assert_eq!(EE_OK, 0);
    assert_eq!(EE_INTERNAL_ERROR, -1);
    assert_eq!(EE_BUFFER_FULL, 1);
    assert_eq!(EE_NOT_FOUND, 2);
}

#[test]
fn espeak_error_msg_maps_known_codes_and_falls_back() {
    assert_eq!(espeak_error_msg(EE_INTERNAL_ERROR), "internal error");
    assert_eq!(espeak_error_msg(EE_BUFFER_FULL), "buffer full");
    assert_eq!(espeak_error_msg(EE_NOT_FOUND), "not found");
    assert_eq!(espeak_error_msg(0), "unknown error");
    assert_eq!(espeak_error_msg(-7), "unknown error");
    assert_eq!(espeak_error_msg(12345), "unknown error");
}

#[test]
fn other_variant_messages_are_total() {
    assert_eq!(Error::NoVoicesAvailable.message(), "no voices available");
    assert_eq!(
        Error::NullPointer.message(),
        "nul byte found in provided data"
    );
    assert_eq!(Error::InvalidUtf8.message(), "invalid utf-8 sequence");
}

#[test]
fn invalid_param_value_message_renders_decimal_values() {
    assert_eq!(
        Error::InvalidParamValue(EspeakParam::Speed, 0).message(),
        "invalid value for 'Speed': 0"
    );
    assert_eq!(
        Error::InvalidParamValue(EspeakParam::Speed, 451).message(),
        "invalid value for 'Speed': 451"
    );
    assert_eq!(
        Error::InvalidParamValue(EspeakParam::Amplitude, u32::MAX).message(),
        "invalid value for 'Amplitude': 4294967295"
    );
    assert_eq!(
        Error::InvalidParamValue(EspeakParam::Pitch, 10).message(),
        "invalid value for 'Pitch': 10"
    );
}
