//! Safe, verified core of a synthesis session over a callback-driven,
//! global-state text-to-speech engine.
//!
//! The engine itself (initialization, voice catalog, synthesis) lives behind a
//! C API and is driven by an unverified host layer; this crate holds the parts
//! that decide and compute: the parameter model with its legal ranges, the
//! error taxonomy with total message rendering, null-terminated text encoding,
//! voice-list decoding, and the audio accumulator that the engine's callback
//! feeds during one synthesis call.

mod callback;
mod error;
mod parameter;
mod session;

pub use callback::bridge_deliver;
pub use callback::lemma_deliveries_preserve_prior;
pub use error::dec_chars;
pub use error::digit_char;
pub use error::espeak_error_msg;
pub use error::error_message_spec;
pub use error::espeak_error_msg_spec;
pub use error::Error;
pub use error::EE_BUFFER_FULL;
pub use error::EE_INTERNAL_ERROR;
pub use error::EE_NOT_FOUND;
pub use error::EE_OK;
pub use parameter::param_baseline;
pub use parameter::param_engine_code;
pub use parameter::param_in_range;
pub use parameter::param_max;
pub use parameter::param_min;
pub use parameter::param_name;
pub use parameter::validate_param_value;
pub use parameter::EspeakParam;
pub use parameter::MAX_AMPLITUDE;
pub use parameter::MAX_PITCH;
pub use parameter::MAX_PITCH_RANGE;
pub use parameter::MAX_SPEED;
pub use parameter::MAX_WORD_GAP;
pub use parameter::MIN_SPEED;
pub use session::all_names_valid;
pub use session::decode_current_voice;
pub use session::decode_voice_list;
pub use session::decoded_voice_names;
pub use session::encode_text;
pub use session::no_embedded_nul;
pub use session::status_to_result;
