//! Audio output formats, playback states, and audio device descriptions.

use vstd::prelude::*;

use std::time::Duration;

use crate::error::{VocalizeError, VocalizeResult};
use crate::text::same_text;
use crate::{DEFAULT_CHANNELS, DEFAULT_SAMPLE_RATE};

verus! {

/// The lowercase form of a text, as `str::to_lowercase` computes it.
pub uninterp spec fn lowercase(s: Seq<char>) -> Seq<char>;

/// Relies on `str::to_lowercase`: the lowercase mapping of the text, which
/// depends on the text alone.
#[verifier::external_body]
fn to_lowercase(s: &str) -> (r: String)
    ensures
        r@ == lowercase(s@),
{
    s.to_lowercase()
}

/// The extension of a path (after the last dot of its file name), as
/// `Path::extension` finds it.
pub uninterp spec fn path_extension(path: Seq<char>) -> Option<Seq<char>>;

/// Relies on `std::path::Path::extension`: the extension of the path's file
/// name, if it has one; the path is text, so the extension is text too.
#[verifier::external_body]
fn extension_of(path: &str) -> (r: Option<String>)
    ensures
        r matches Some(e) ==> path_extension(path@) == Some(e@),
        r is None ==> path_extension(path@) is None,
{
    std::path::Path::new(path).extension().and_then(|e| e.to_str()).map(|e| e.to_owned())
}

/// Supported audio output formats
#[derive(Debug, Clone, Copy, PartialEq, Eq, Hash, Structural)]
pub enum AudioFormat {
    /// WAV format (uncompressed)
    Wav,
    /// MP3 format (lossy compression)
    Mp3,
    /// FLAC format (lossless compression)
    Flac,
    /// OGG Vorbis format (lossy compression)
    Ogg,
}

/// The format whose extension, in lowercase, is `ext`.
pub open spec fn format_named(ext: Seq<char>) -> Option<AudioFormat> {
    if ext == "wav"@ {
        Some(AudioFormat::Wav)
    } else if ext == "mp3"@ {
        Some(AudioFormat::Mp3)
    } else if ext == "flac"@ {
        Some(AudioFormat::Flac)
    } else if ext == "ogg"@ {
        Some(AudioFormat::Ogg)
    } else {
        None
    }
}

impl AudioFormat {
    pub open spec fn spec_extension(self) -> Seq<char> {
        match self {
            AudioFormat::Wav => "wav"@,
            AudioFormat::Mp3 => "mp3"@,
            AudioFormat::Flac => "flac"@,
            AudioFormat::Ogg => "ogg"@,
        }
    }

    /// Get file extension for the format
    pub fn extension(self) -> (r: &'static str)
        ensures
            r@ == self.spec_extension(),
    {
        match self {
            AudioFormat::Wav => "wav",
            AudioFormat::Mp3 => "mp3",
            AudioFormat::Flac => "flac",
            AudioFormat::Ogg => "ogg",
        }
    }

    /// Get MIME type for the format
    pub fn mime_type(self) -> (r: &'static str)
        ensures
            r@ == match self {
                AudioFormat::Wav => "audio/wav"@,
                AudioFormat::Mp3 => "audio/mpeg"@,
                AudioFormat::Flac => "audio/flac"@,
                AudioFormat::Ogg => "audio/ogg"@,
            },
    {
        match self {
            AudioFormat::Wav => "audio/wav",
            AudioFormat::Mp3 => "audio/mpeg",
            AudioFormat::Flac => "audio/flac",
            AudioFormat::Ogg => "audio/ogg",
        }
    }

    /// Check if the format is lossy
    pub fn is_lossy(self) -> (r: bool)
        ensures
            r == (self is Mp3 || self is Ogg),
    {
        match self {
            AudioFormat::Mp3 | AudioFormat::Ogg => true,
            _ => false,
        }
    }

    /// Get human-readable description
    pub fn description(self) -> (r: &'static str)
        ensures
            r@ == match self {
                AudioFormat::Wav => "Waveform Audio File Format"@,
                AudioFormat::Mp3 => "MPEG Audio Layer III"@,
                AudioFormat::Flac => "Free Lossless Audio Codec"@,
                AudioFormat::Ogg => "Ogg Vorbis"@,
            },
    {
        match self {
            AudioFormat::Wav => "Waveform Audio File Format",
            AudioFormat::Mp3 => "MPEG Audio Layer III",
            AudioFormat::Flac => "Free Lossless Audio Codec",
            AudioFormat::Ogg => "Ogg Vorbis",
        }
    }

    /// The format whose extension is exactly `ext` (already in lowercase).
    pub fn from_lowercase_extension(ext: &str) -> (r: Option<AudioFormat>)
        ensures
            r == format_named(ext@),
    {
        if same_text(ext, "wav") {
            Some(AudioFormat::Wav)
        } else if same_text(ext, "mp3") {
            Some(AudioFormat::Mp3)
        } else if same_text(ext, "flac") {
            Some(AudioFormat::Flac)
        } else if same_text(ext, "ogg") {
            Some(AudioFormat::Ogg)
        } else {
            None
        }
    }

    /// Detect format from file extension, in any case.
    pub fn from_extension(extension: &str) -> (r: VocalizeResult<Self>)
        ensures
            r matches Ok(f) ==> format_named(lowercase(extension@)) == Some(f),
            r is Err <==> format_named(lowercase(extension@)) is None,
            r matches Err(e) ==> e is InvalidInput && e.text() == "Unsupported audio format: "@
                + extension@,
    {
        let lower = to_lowercase(extension);
        match AudioFormat::from_lowercase_extension(lower.as_str()) {
            Some(f) => Ok(f),
            None => {
                let mut m = String::from_str("Unsupported audio format: ");
                m.append(extension);
                Err(VocalizeError::invalid_input(m.as_str()))
            },
        }
    }

    /// Detect format from file path
    pub fn from_path(path: &str) -> (r: VocalizeResult<Self>)
        ensures
            path_extension(path@) is None ==> (r matches Err(e) && e is InvalidInput && e.text()
                == "No file extension found in path: "@ + path@),
            path_extension(path@) matches Some(ext) ==> {
                &&& (r is Err <==> format_named(lowercase(ext)) is None)
                &&& (r matches Ok(f) ==> format_named(lowercase(ext)) == Some(f))
                &&& (r matches Err(e) ==> e is InvalidInput && e.text()
                    == "Unsupported audio format: "@ + ext)
            },
    {
        match extension_of(path) {
            Some(ext) => AudioFormat::from_extension(ext.as_str()),
            None => {
                let mut m = String::from_str("No file extension found in path: ");
                m.append(path);
                Err(VocalizeError::invalid_input(m.as_str()))
            },
        }
    }

    /// Get all supported formats
    pub fn all() -> (r: Vec<Self>)
        ensures
            r@ == seq![AudioFormat::Wav, AudioFormat::Mp3, AudioFormat::Flac, AudioFormat::Ogg],
    {
        let r = vec![AudioFormat::Wav, AudioFormat::Mp3, AudioFormat::Flac, AudioFormat::Ogg];
        assert(r@ =~= seq![AudioFormat::Wav, AudioFormat::Mp3, AudioFormat::Flac, AudioFormat::Ogg]);
        r
    }

    /// The format's name: its extension in capitals.
    pub fn to_string(&self) -> (r: String)
        ensures
            r@ == match *self {
                AudioFormat::Wav => "WAV"@,
                AudioFormat::Mp3 => "MP3"@,
                AudioFormat::Flac => "FLAC"@,
                AudioFormat::Ogg => "OGG"@,
            },
    {
        match self {
            AudioFormat::Wav => String::from_str("WAV"),
            AudioFormat::Mp3 => String::from_str("MP3"),
            AudioFormat::Flac => String::from_str("FLAC"),
            AudioFormat::Ogg => String::from_str("OGG"),
        }
    }
}

/// Playback state enumeration
#[derive(Debug, Clone, Copy, PartialEq, Eq, Structural)]
pub enum PlaybackState {
    /// Audio is stopped
    Stopped,
    /// Audio is currently playing
    Playing,
    /// Audio is paused
    Paused,
    /// Audio playback encountered an error
    Error,
}

impl PlaybackState {
    /// The state's name.
    pub fn to_string(&self) -> (r: String)
        ensures
            r@ == match *self {
                PlaybackState::Stopped => "Stopped"@,
                PlaybackState::Playing => "Playing"@,
                PlaybackState::Paused => "Paused"@,
                PlaybackState::Error => "Error"@,
            },
    {
        match self {
            PlaybackState::Stopped => String::from_str("Stopped"),
            PlaybackState::Playing => String::from_str("Playing"),
            PlaybackState::Paused => String::from_str("Paused"),
            PlaybackState::Error => String::from_str("Error"),
        }
    }
}

/// Audio device information
#[derive(Debug, Clone)]
pub struct AudioDeviceInfo {
    /// Device identifier
    pub id: String,
    /// Human-readable device name
    pub name: String,
    /// Number of output channels
    pub channels: u16,
    /// Supported sample rates
    pub sample_rates: Vec<u32>,
    /// Whether this is the default device
    pub is_default: bool,
}

fn same_rates(a: &Vec<u32>, b: &Vec<u32>) -> (r: bool)
    ensures
        r == (a@ == b@),
{
    if a.len() != b.len() {
        return false;
    }
    let mut i: usize = 0;
    while i < a.len()
        invariant
            a@.len() == b@.len(),
            i <= a@.len(),
            forall|j: int| 0 <= j < i ==> a@[j] == b@[j],
        decreases a@.len() - i,
    {
        if a[i] != b[i] {
            return false;
        }
        i = i + 1;
    }
    assert(a@ =~= b@);
    true
}

impl PartialEq for AudioDeviceInfo {
    fn eq(&self, other: &AudioDeviceInfo) -> (r: bool) {
        self.id == other.id && self.name == other.name && self.channels == other.channels
            && same_rates(&self.sample_rates, &other.sample_rates) && self.is_default
            == other.is_default
    }
}

impl vstd::std_specs::cmp::PartialEqSpecImpl for AudioDeviceInfo {
    open spec fn obeys_eq_spec() -> bool {
        true
    }

    open spec fn eq_spec(&self, other: &AudioDeviceInfo) -> bool {
        &&& self.id@ == other.id@
        &&& self.name@ == other.name@
        &&& self.channels == other.channels
        &&& self.sample_rates@ == other.sample_rates@
        &&& self.is_default == other.is_default
    }
}

/// Buffer size of the default playback configuration, in frames.
pub const DEFAULT_BUFFER_SIZE: u32 = 1024;

/// Latency target of the default playback configuration, in milliseconds.
pub const DEFAULT_LATENCY_MS: u64 = 50;

/// Relies on `Duration::from_millis`, to build the default latency target.
pub assume_specification[ Duration::from_millis ](millis: u64) -> Duration;

/// Relies on `Duration::clone`, used by the derived `Clone` of `AudioConfig`;
/// `Duration` is `Copy`, so the clone is the same value.
pub assume_specification[ <Duration as Clone>::clone ](d: &Duration) -> (r: Duration)
    ensures
        r == *d,
;

/// Audio device configuration
#[derive(Debug, Clone)]
pub struct AudioConfig {
    /// Target device ID (None for default)
    pub device_id: Option<String>,
    /// Sample rate for playback
    pub sample_rate: u32,
    /// Number of channels
    pub channels: u16,
    /// Buffer size in frames
    pub buffer_size: u32,
    /// Playback latency target
    pub latency: Duration,
}

impl Default for AudioConfig {
    fn default() -> (r: Self)
        ensures
            r.device_id is None,
            r.sample_rate == DEFAULT_SAMPLE_RATE,
            r.channels == DEFAULT_CHANNELS,
            r.buffer_size == DEFAULT_BUFFER_SIZE,
    {
        AudioConfig {
            device_id: None,
            sample_rate: DEFAULT_SAMPLE_RATE,
            channels: DEFAULT_CHANNELS,
            buffer_size: DEFAULT_BUFFER_SIZE,
            latency: Duration::from_millis(DEFAULT_LATENCY_MS),
        }
    }
}

/// Free space reported by the playback queue, in frames.
pub const QUEUE_SPACE: usize = 1024;

/// Longest simulated playback, in milliseconds.
pub const MAX_SIMULATED_PLAYBACK_MS: u64 = 100;

/// A simulated playback device: a configuration and a playback state.
pub struct AudioDevice {
    config: AudioConfig,
    state: PlaybackState,
}

impl AudioDevice {
    /// The playback state.
    pub closed spec fn spec_state(&self) -> PlaybackState {
        self.state
    }

    /// The configuration.
    pub closed spec fn spec_config(&self) -> AudioConfig {
        self.config
    }

    /// Create a new simulated device with the default configuration, stopped.
    pub fn new_mock() -> (r: Self)
        ensures
            r.spec_state() == PlaybackState::Stopped,
            r.spec_config().sample_rate == DEFAULT_SAMPLE_RATE,
            r.spec_config().channels == DEFAULT_CHANNELS,
            r.spec_config().buffer_size == DEFAULT_BUFFER_SIZE,
            r.spec_config().device_id is None,
    {
        AudioDevice::with_config(AudioConfig::default())
    }

    /// Create a new simulated device with `config`, stopped.
    pub fn with_config(config: AudioConfig) -> (r: Self)
        ensures
            r.spec_state() == PlaybackState::Stopped,
            r.spec_config() == config,
    {
        AudioDevice { config, state: PlaybackState::Stopped }
    }

    /// The devices that can be chosen: a default device and built-in speakers.
    pub fn get_available_devices() -> (r: VocalizeResult<Vec<AudioDeviceInfo>>)
        ensures
            r matches Ok(devices) && devices@.len() == 2 && devices@[0].is_default
                && devices@[0].id@ == "default"@ && !devices@[1].is_default && devices@[1].id@
                == "speakers"@,
    {
        let default_device = AudioDeviceInfo {
            id: String::from_str("default"),
            name: String::from_str("Default Audio Device"),
            channels: 2,
            sample_rates: vec![44100, 48000],
            is_default: true,
        };
        let speakers = AudioDeviceInfo {
            id: String::from_str("speakers"),
            name: String::from_str("Built-in Speakers"),
            channels: 2,
            sample_rates: vec![44100, 48000],
            is_default: false,
        };
        Ok(vec![default_device, speakers])
    }

    /// Start audio playback; a playing device keeps playing.
    pub fn start(&mut self) -> (r: VocalizeResult<()>)
        ensures
            r is Ok,
            final(self).spec_state() == PlaybackState::Playing,
            final(self).spec_config() == old(self).spec_config(),
    {
        self.state = PlaybackState::Playing;
        Ok(())
    }

    /// Stop audio playback
    pub fn stop(&mut self) -> (r: VocalizeResult<()>)
        ensures
            r is Ok,
            final(self).spec_state() == PlaybackState::Stopped,
            final(self).spec_config() == old(self).spec_config(),
    {
        self.state = PlaybackState::Stopped;
        Ok(())
    }

    /// Pause audio playback; only a playing device can pause.
    pub fn pause(&mut self) -> (r: VocalizeResult<()>)
        ensures
            r is Ok <==> old(self).spec_state() == PlaybackState::Playing,
            r is Ok ==> final(self).spec_state() == PlaybackState::Paused,
            r is Err ==> final(self).spec_state() == old(self).spec_state(),
            r matches Err(e) ==> e is AudioDeviceError && e.text()
                == "Cannot pause: not currently playing"@,
            final(self).spec_config() == old(self).spec_config(),
    {
        if self.state != PlaybackState::Playing {
            return Err(VocalizeError::audio_device("Cannot pause: not currently playing"));
        }
        self.state = PlaybackState::Paused;
        Ok(())
    }

    /// Resume audio playback; only a paused device can resume.
    pub fn resume(&mut self) -> (r: VocalizeResult<()>)
        ensures
            r is Ok <==> old(self).spec_state() == PlaybackState::Paused,
            r is Ok ==> final(self).spec_state() == PlaybackState::Playing,
            r is Err ==> final(self).spec_state() == old(self).spec_state(),
            r matches Err(e) ==> e is AudioDeviceError && e.text()
                == "Cannot resume: not currently paused"@,
            final(self).spec_config() == old(self).spec_config(),
    {
        if self.state != PlaybackState::Paused {
            return Err(VocalizeError::audio_device("Cannot resume: not currently paused"));
        }
        self.state = PlaybackState::Playing;
        Ok(())
    }

    /// Begin playing `sample_count` samples: the device plays; no samples is
    /// an error and changes nothing. Returns how long the simulated playback
    /// lasts, in milliseconds: the samples' duration at the configured
    /// rate, at most `MAX_SIMULATED_PLAYBACK_MS`.
    pub fn begin_play(&mut self, sample_count: usize) -> (r: VocalizeResult<u64>)
        ensures
            r is Ok <==> sample_count > 0,
            r is Ok ==> final(self).spec_state() == PlaybackState::Playing,
            r matches Ok(ms) ==> ms == (if old(self).spec_config().sample_rate == 0 {
                MAX_SIMULATED_PLAYBACK_MS as int
            } else if sample_count * 1000 / (old(self).spec_config().sample_rate as int)
                < MAX_SIMULATED_PLAYBACK_MS {
                sample_count * 1000 / (old(self).spec_config().sample_rate as int)
            } else {
                MAX_SIMULATED_PLAYBACK_MS as int
            }),
            r is Err ==> final(self).spec_state() == old(self).spec_state(),
            r matches Err(e) ==> e is InvalidInput && e.text() == "Audio data cannot be empty"@,
            final(self).spec_config() == old(self).spec_config(),
    {
        if sample_count == 0 {
            return Err(VocalizeError::invalid_input("Audio data cannot be empty"));
        }
        self.state = PlaybackState::Playing;
        let rate = self.config.sample_rate as u128;
        if rate == 0 {
            return Ok(MAX_SIMULATED_PLAYBACK_MS);
        }
        let ms = (sample_count as u128) * 1000 / rate;
        if ms < MAX_SIMULATED_PLAYBACK_MS as u128 {
            Ok(ms as u64)
        } else {
            Ok(MAX_SIMULATED_PLAYBACK_MS)
        }
    }

    /// The simulated playback is over: the device stops.
    pub fn finish_play(&mut self)
        ensures
            final(self).spec_state() == PlaybackState::Stopped,
            final(self).spec_config() == old(self).spec_config(),
    {
        self.state = PlaybackState::Stopped;
    }

    /// Get current playback state
    pub fn get_state(&self) -> (r: PlaybackState)
        ensures
            r == self.spec_state(),
    {
        self.state
    }

    /// Check if audio is currently playing
    pub fn is_playing(&self) -> (r: bool)
        ensures
            r == (self.spec_state() == PlaybackState::Playing),
    {
        self.state == PlaybackState::Playing
    }

    /// Check if audio is paused
    pub fn is_paused(&self) -> (r: bool)
        ensures
            r == (self.spec_state() == PlaybackState::Paused),
    {
        self.state == PlaybackState::Paused
    }

    /// Check if audio is stopped (an error also stops playback)
    pub fn is_stopped(&self) -> (r: bool)
        ensures
            r == (self.spec_state() == PlaybackState::Stopped || self.spec_state()
                == PlaybackState::Error),
    {
        self.state == PlaybackState::Stopped || self.state == PlaybackState::Error
    }

    /// Get current audio configuration
    pub fn get_config(&self) -> (r: &AudioConfig)
        ensures
            *r == self.spec_config(),
    {
        &self.config
    }

    /// Get device information
    pub fn get_device_info(&self) -> (r: Option<String>)
        ensures
            r matches Some(s) && s@ == "Mock Audio Device"@,
    {
        Some(String::from_str("Mock Audio Device"))
    }

    /// Get audio queue status: samples queued and space left.
    pub fn get_queue_status(&self) -> (r: (usize, usize))
        ensures
            r == (0usize, QUEUE_SPACE),
    {
        (0, QUEUE_SPACE)
    }
}

} // verus!
