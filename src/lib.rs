//! Neural text-to-speech runtime core: a bounded pool of inference sessions,
//! the validation and output-selection rules around one inference call, and
//! the value types shared by the rest of the engine.

use vstd::prelude::*;

pub mod error;
pub mod session_pool;
pub mod text;
pub mod model;
pub mod inference;
pub mod audio;
pub mod voice;
pub mod config;
pub mod wav;
pub mod normalize;
pub mod voice_file;
pub mod encoding;

pub use audio::{AudioConfig, AudioDevice, AudioDeviceInfo, AudioFormat, PlaybackState};
pub use config::{TtsConfig, TtsDevice};
pub use error::{VocalizeError, VocalizeResult};
pub use model::{ModelConfig, ModelId, ModelInfo};
pub use session_pool::{OnnxSessionPool, PoolStats, SessionGuard};
pub use voice::{Gender, VoiceStyle};
pub use wav::WavSpec;

verus! {

/// Default sample rate for audio processing (24 kHz).
pub const DEFAULT_SAMPLE_RATE: u32 = 24_000;

/// Default number of audio channels (mono).
pub const DEFAULT_CHANNELS: u16 = 1;

/// Maximum text length for synthesis.
pub const MAX_TEXT_LENGTH: usize = 100_000;

/// Version of this crate.
pub const VERSION: &'static str = "0.1.0";

} // verus!
