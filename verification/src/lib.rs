//! Compatibility core between ACRE2's private voice-plugin protocol and Mumble.

pub mod adapter;
pub mod adapter_laws;
pub mod adapter_worker;
pub mod audio_snapshot;
pub mod audio_snapshot_laws;
pub mod base64;
pub mod binary32;
pub mod binary32_laws;
pub mod capture;
pub mod channel;
pub mod codec;
pub mod codec_laws;
pub mod context;
pub mod control;
pub mod control_laws;
pub mod decimal;
pub mod decimal_laws;
pub mod logging;
pub mod model;
pub mod order;
pub mod peer;
pub mod peer_laws;
pub mod peer_dispatch;
pub mod peer_state;
pub mod peer_state_laws;
pub mod pipe;
pub mod plugin;
pub mod procedure;
pub mod ptt;
pub mod ptt_laws;
pub mod render;
pub mod render_laws;
pub mod round;
pub mod round_laws;
pub mod runtime;
pub mod runtime_laws;
pub mod session;
pub mod session_laws;
pub mod sound;
pub mod sound_laws;
pub mod sound_cache;
pub mod sound_cache_laws;
pub mod speaking;
pub mod speaking_laws;
pub mod text;
pub mod transmission;
pub mod transmission_laws;
pub mod words;
pub mod words_laws;
