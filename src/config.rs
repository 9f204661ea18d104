//! Engine configuration.

use vstd::prelude::*;

use std::path::PathBuf;

use crate::{DEFAULT_SAMPLE_RATE, MAX_TEXT_LENGTH};

verus! {

/// Relies on `directories::BaseDirs::home_dir`: the user's home directory,
/// when the platform reports one.
#[verifier::external_body]
fn home_directory() -> Option<PathBuf> {
    directories::BaseDirs::new().map(|dirs| dirs.home_dir().to_path_buf())
}

/// Relies on `PathBuf::from`, to make a path of a text.
#[verifier::external_body]
fn path_of(s: &str) -> PathBuf {
    PathBuf::from(s)
}

/// Relies on `Path::join`, to append a component to a path.
#[verifier::external_body]
fn join_path(base: &PathBuf, component: &str) -> PathBuf {
    base.join(component)
}

/// Device type for TTS inference
#[derive(Debug, Clone, Copy, PartialEq, Eq, Structural)]
pub enum TtsDevice {
    /// Use CPU for inference
    Cpu,
    /// Use GPU for inference (if available)
    Gpu,
    /// Automatically select the best device
    Auto,
}

/// Configuration for the TTS engine
#[derive(Debug, Clone)]
pub struct TtsConfig {
    /// Directory for model cache storage
    pub model_cache_dir: PathBuf,
    /// Device to use for inference (CPU/GPU)
    pub device: TtsDevice,
    /// Maximum text length to process
    pub max_text_length: usize,
    /// Default sample rate
    pub sample_rate: u32,
    /// Enable auto-installation of default model
    pub auto_install_default: bool,
    /// Default model ID to use
    pub default_model_id: String,
}

impl TtsConfig {
    /// The default configuration with its cache under `model_cache_dir`.
    pub fn with_cache_dir(model_cache_dir: PathBuf) -> (r: Self)
        ensures
            r.model_cache_dir == model_cache_dir,
            r.device == TtsDevice::Cpu,
            r.max_text_length == MAX_TEXT_LENGTH,
            r.sample_rate == DEFAULT_SAMPLE_RATE,
            r.auto_install_default,
            r.default_model_id@ == "kokoro"@,
    {
        TtsConfig {
            model_cache_dir,
            device: TtsDevice::Cpu,
            max_text_length: MAX_TEXT_LENGTH,
            sample_rate: DEFAULT_SAMPLE_RATE,
            auto_install_default: true,
            default_model_id: String::from_str("kokoro"),
        }
    }
}

impl Default for TtsConfig {
    /// The cache lives in `.vocalize` under the home directory, or under the
    /// working directory when there is no home directory.
    fn default() -> (r: Self)
        ensures
            r.device == TtsDevice::Cpu,
            r.max_text_length == MAX_TEXT_LENGTH,
            r.sample_rate == DEFAULT_SAMPLE_RATE,
            r.auto_install_default,
            r.default_model_id@ == "kokoro"@,
    {
        let home = match home_directory() {
            Some(h) => h,
            None => path_of("."),
        };
        TtsConfig::with_cache_dir(join_path(&home, ".vocalize"))
    }
}

} // verus!
