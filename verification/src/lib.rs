//! A clip playback engine: interleaved audio buffers, a resampling supplier
//! stage, the transport state machine of a clip slot, the columns and the
//! matrix that own the slots, and the audio hook that keeps the list of
//! real-time processors.
//!
//! The engine computes with integers: times are in microseconds, values of
//! the unit interval in billionths, gains in millionths, frame rates in
//! thousandths of a hertz. What only the host can do, playing a preview or
//! converting a frame rate, the engine asks for; the host's answer takes the
//! engine one step further.
pub mod audio_hook;
pub mod buffer;
pub mod channel;
pub mod clip_content;
pub mod clip_slot;
pub mod column;
pub mod matrix;
pub mod preview;
pub mod props;
pub mod resampler;
pub mod settings;
pub mod slot;
pub mod slot_state;
pub mod symbols;
pub mod targets;
pub mod unit_value;
pub mod units;
