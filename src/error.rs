//! Error taxonomy of the engine.

use vstd::prelude::*;

use std::io::Error as IoError;

verus! {

/// `std::io::Error`, carried through unread.
#[verifier::external_type_specification]
#[verifier::external_body]
pub struct ExIoError(IoError);

/// Relies on the `Display` of `std::io::Error` (through `to_string`): its
/// description, which for an OS error comes from the system.
#[verifier::external_body]
fn io_error_text(err: &IoError) -> String {
    err.to_string()
}

/// Main error type: one variant per kind of failure, each carrying a message.
#[derive(Debug, Clone)]
pub enum VocalizeError {
    /// TTS synthesis failed
    SynthesisError { message: String },
    /// Audio device error
    AudioDeviceError { message: String },
    /// Audio format or processing error
    AudioProcessingError { message: String },
    /// File I/O error
    FileError { message: String },
    /// Voice not found error
    VoiceNotFound { voice_id: String },
    /// Invalid input error
    InvalidInput { message: String },
    /// Configuration error
    ConfigurationError { message: String },
    /// Model loading error
    ModelError { message: String },
    /// Network or download error
    NetworkError { message: String },
    /// Memory allocation error
    MemoryError { message: String },
    /// Timeout error
    TimeoutError { message: String },
    /// Thread or concurrency error
    ConcurrencyError { message: String },
}

/// Result type of the engine's fallible operations.
pub type VocalizeResult<T> = Result<T, VocalizeError>;

impl VocalizeError {
    /// The text carried by the error (the voice id for `VoiceNotFound`).
    pub open spec fn text(&self) -> Seq<char> {
        match self {
            VocalizeError::SynthesisError { message } => message@,
            VocalizeError::AudioDeviceError { message } => message@,
            VocalizeError::AudioProcessingError { message } => message@,
            VocalizeError::FileError { message } => message@,
            VocalizeError::VoiceNotFound { voice_id } => voice_id@,
            VocalizeError::InvalidInput { message } => message@,
            VocalizeError::ConfigurationError { message } => message@,
            VocalizeError::ModelError { message } => message@,
            VocalizeError::NetworkError { message } => message@,
            VocalizeError::MemoryError { message } => message@,
            VocalizeError::TimeoutError { message } => message@,
            VocalizeError::ConcurrencyError { message } => message@,
        }
    }

    /// Position of the variant in the declaration.
    pub open spec fn kind(&self) -> int {
        match self {
            VocalizeError::SynthesisError { .. } => 0,
            VocalizeError::AudioDeviceError { .. } => 1,
            VocalizeError::AudioProcessingError { .. } => 2,
            VocalizeError::FileError { .. } => 3,
            VocalizeError::VoiceNotFound { .. } => 4,
            VocalizeError::InvalidInput { .. } => 5,
            VocalizeError::ConfigurationError { .. } => 6,
            VocalizeError::ModelError { .. } => 7,
            VocalizeError::NetworkError { .. } => 8,
            VocalizeError::MemoryError { .. } => 9,
            VocalizeError::TimeoutError { .. } => 10,
            VocalizeError::ConcurrencyError { .. } => 11,
        }
    }

    /// Create a new synthesis error
    pub fn synthesis(message: &str) -> (r: Self)
        ensures
            r is SynthesisError,
            r.text() == message@,
    {
        VocalizeError::SynthesisError { message: message.to_owned() }
    }

    /// Create a new audio device error
    pub fn audio_device(message: &str) -> (r: Self)
        ensures
            r is AudioDeviceError,
            r.text() == message@,
    {
        VocalizeError::AudioDeviceError { message: message.to_owned() }
    }

    /// Create a new audio processing error
    pub fn audio_processing(message: &str) -> (r: Self)
        ensures
            r is AudioProcessingError,
            r.text() == message@,
    {
        VocalizeError::AudioProcessingError { message: message.to_owned() }
    }

    /// Create a new file error
    pub fn file(message: &str) -> (r: Self)
        ensures
            r is FileError,
            r.text() == message@,
    {
        VocalizeError::FileError { message: message.to_owned() }
    }

    /// Create a new voice not found error
    pub fn voice_not_found(voice_id: &str) -> (r: Self)
        ensures
            r is VoiceNotFound,
            r.text() == voice_id@,
    {
        VocalizeError::VoiceNotFound { voice_id: voice_id.to_owned() }
    }

    /// Create a new invalid input error
    pub fn invalid_input(message: &str) -> (r: Self)
        ensures
            r is InvalidInput,
            r.text() == message@,
    {
        VocalizeError::InvalidInput { message: message.to_owned() }
    }

    /// Create a new configuration error
    pub fn configuration(message: &str) -> (r: Self)
        ensures
            r is ConfigurationError,
            r.text() == message@,
    {
        VocalizeError::ConfigurationError { message: message.to_owned() }
    }

    /// Create a new model error
    pub fn model(message: &str) -> (r: Self)
        ensures
            r is ModelError,
            r.text() == message@,
    {
        VocalizeError::ModelError { message: message.to_owned() }
    }

    /// Create a new network error
    pub fn network(message: &str) -> (r: Self)
        ensures
            r is NetworkError,
            r.text() == message@,
    {
        VocalizeError::NetworkError { message: message.to_owned() }
    }

    /// Create a new memory error
    pub fn memory(message: &str) -> (r: Self)
        ensures
            r is MemoryError,
            r.text() == message@,
    {
        VocalizeError::MemoryError { message: message.to_owned() }
    }

    /// Create a new timeout error
    pub fn timeout(message: &str) -> (r: Self)
        ensures
            r is TimeoutError,
            r.text() == message@,
    {
        VocalizeError::TimeoutError { message: message.to_owned() }
    }

    /// Create a new concurrency error
    pub fn concurrency(message: &str) -> (r: Self)
        ensures
            r is ConcurrencyError,
            r.text() == message@,
    {
        VocalizeError::ConcurrencyError { message: message.to_owned() }
    }
    /// Create a new model not found error
    pub fn model_not_found(model_id: &str) -> (r: Self)
        ensures
            r is ModelError,
            r.text() == "Model '"@ + model_id@ + "' not found"@,
    {
        let mut m = String::from_str("Model '");
        m.append(model_id);
        m.append("' not found");
        VocalizeError::ModelError { message: m }
    }

    /// A file error describing an I/O error.
    pub fn from(err: IoError) -> (r: Self)
        ensures
            r is FileError,
    {
        VocalizeError::FileError { message: io_error_text(&err) }
    }

    /// Whether retrying may help: network, timeout and memory errors.
    pub open spec fn spec_is_retriable(&self) -> bool {
        self is NetworkError || self is TimeoutError || self is MemoryError
    }

    /// Whether the caller's input is at fault: invalid input, an unknown
    /// voice, or a bad configuration.
    pub open spec fn spec_is_user_error(&self) -> bool {
        self is InvalidInput || self is VoiceNotFound || self is ConfigurationError
    }

    /// Check if this error is retriable
    pub fn is_retriable(&self) -> (r: bool)
        ensures
            r == self.spec_is_retriable(),
    {
        match self {
            VocalizeError::NetworkError { .. } => true,
            VocalizeError::TimeoutError { .. } => true,
            VocalizeError::MemoryError { .. } => true,
            _ => false,
        }
    }

    /// Check if this error is due to invalid user input
    pub fn is_user_error(&self) -> (r: bool)
        ensures
            r == self.spec_is_user_error(),
    {
        match self {
            VocalizeError::InvalidInput { .. } => true,
            VocalizeError::VoiceNotFound { .. } => true,
            VocalizeError::ConfigurationError { .. } => true,
            _ => false,
        }
    }

    /// The category name of an error, for logging and metrics.
    pub open spec fn spec_category(&self) -> Seq<char> {
        match self {
            VocalizeError::SynthesisError { .. } => "synthesis"@,
            VocalizeError::AudioDeviceError { .. } => "audio_device"@,
            VocalizeError::AudioProcessingError { .. } => "audio_processing"@,
            VocalizeError::FileError { .. } => "file"@,
            VocalizeError::VoiceNotFound { .. } => "voice"@,
            VocalizeError::InvalidInput { .. } => "input"@,
            VocalizeError::ConfigurationError { .. } => "configuration"@,
            VocalizeError::ModelError { .. } => "model"@,
            VocalizeError::NetworkError { .. } => "network"@,
            VocalizeError::MemoryError { .. } => "memory"@,
            VocalizeError::TimeoutError { .. } => "timeout"@,
            VocalizeError::ConcurrencyError { .. } => "concurrency"@,
        }
    }

    /// Get the error category for logging/metrics
    pub fn category(&self) -> (r: &'static str)
        ensures
            r@ == self.spec_category(),
    {
        match self {
            VocalizeError::SynthesisError { .. } => "synthesis",
            VocalizeError::AudioDeviceError { .. } => "audio_device",
            VocalizeError::AudioProcessingError { .. } => "audio_processing",
            VocalizeError::FileError { .. } => "file",
            VocalizeError::VoiceNotFound { .. } => "voice",
            VocalizeError::InvalidInput { .. } => "input",
            VocalizeError::ConfigurationError { .. } => "configuration",
            VocalizeError::ModelError { .. } => "model",
            VocalizeError::NetworkError { .. } => "network",
            VocalizeError::MemoryError { .. } => "memory",
            VocalizeError::TimeoutError { .. } => "timeout",
            VocalizeError::ConcurrencyError { .. } => "concurrency",
        }
    }

    /// The text before the carried message in an error's description.
    pub open spec fn spec_prefix(&self) -> Seq<char> {
        match self {
            VocalizeError::SynthesisError { .. } => "TTS synthesis failed: "@,
            VocalizeError::AudioDeviceError { .. } => "Audio device error: "@,
            VocalizeError::AudioProcessingError { .. } => "Audio processing error: "@,
            VocalizeError::FileError { .. } => "File I/O error: "@,
            VocalizeError::VoiceNotFound { .. } => "Voice '"@,
            VocalizeError::InvalidInput { .. } => "Invalid input: "@,
            VocalizeError::ConfigurationError { .. } => "Configuration error: "@,
            VocalizeError::ModelError { .. } => "Model loading error: "@,
            VocalizeError::NetworkError { .. } => "Network error: "@,
            VocalizeError::MemoryError { .. } => "Memory allocation error: "@,
            VocalizeError::TimeoutError { .. } => "Operation timed out: "@,
            VocalizeError::ConcurrencyError { .. } => "Concurrency error: "@,
        }
    }

    /// The description of an error: its prefix, then its text; a missing
    /// voice reads `Voice '<id>' not found`.
    pub open spec fn spec_description(&self) -> Seq<char> {
        if self is VoiceNotFound {
            self.spec_prefix() + self.text() + "' not found"@
        } else {
            self.spec_prefix() + self.text()
        }
    }

    fn prefix(&self) -> (r: &'static str)
        ensures
            r@ == self.spec_prefix(),
    {
        match self {
            VocalizeError::SynthesisError { .. } => "TTS synthesis failed: ",
            VocalizeError::AudioDeviceError { .. } => "Audio device error: ",
            VocalizeError::AudioProcessingError { .. } => "Audio processing error: ",
            VocalizeError::FileError { .. } => "File I/O error: ",
            VocalizeError::VoiceNotFound { .. } => "Voice '",
            VocalizeError::InvalidInput { .. } => "Invalid input: ",
            VocalizeError::ConfigurationError { .. } => "Configuration error: ",
            VocalizeError::ModelError { .. } => "Model loading error: ",
            VocalizeError::NetworkError { .. } => "Network error: ",
            VocalizeError::MemoryError { .. } => "Memory allocation error: ",
            VocalizeError::TimeoutError { .. } => "Operation timed out: ",
            VocalizeError::ConcurrencyError { .. } => "Concurrency error: ",
        }
    }

    fn carried(&self) -> (r: &String)
        ensures
            r@ == self.text(),
    {
        match self {
            VocalizeError::SynthesisError { message } => message,
            VocalizeError::AudioDeviceError { message } => message,
            VocalizeError::AudioProcessingError { message } => message,
            VocalizeError::FileError { message } => message,
            VocalizeError::VoiceNotFound { voice_id } => voice_id,
            VocalizeError::InvalidInput { message } => message,
            VocalizeError::ConfigurationError { message } => message,
            VocalizeError::ModelError { message } => message,
            VocalizeError::NetworkError { message } => message,
            VocalizeError::MemoryError { message } => message,
            VocalizeError::TimeoutError { message } => message,
            VocalizeError::ConcurrencyError { message } => message,
        }
    }

    /// The description of the error.
    pub fn to_string(&self) -> (r: String)
        ensures
            r@ == self.spec_description(),
    {
        let mut s = String::from_str(self.prefix());
        s.append(self.carried().as_str());
        if let VocalizeError::VoiceNotFound { .. } = self {
            s.append("' not found");
        }
        s
    }
}

impl PartialEq for VocalizeError {
    fn eq(&self, other: &VocalizeError) -> (r: bool) {
        let same_kind = match (self, other) {
            (VocalizeError::SynthesisError { .. }, VocalizeError::SynthesisError { .. }) => true,
            (VocalizeError::AudioDeviceError { .. }, VocalizeError::AudioDeviceError { .. }) => true,
            (
                VocalizeError::AudioProcessingError { .. },
                VocalizeError::AudioProcessingError { .. },
            ) => true,
            (VocalizeError::FileError { .. }, VocalizeError::FileError { .. }) => true,
            (VocalizeError::VoiceNotFound { .. }, VocalizeError::VoiceNotFound { .. }) => true,
            (VocalizeError::InvalidInput { .. }, VocalizeError::InvalidInput { .. }) => true,
            (
                VocalizeError::ConfigurationError { .. },
                VocalizeError::ConfigurationError { .. },
            ) => true,
            (VocalizeError::ModelError { .. }, VocalizeError::ModelError { .. }) => true,
            (VocalizeError::NetworkError { .. }, VocalizeError::NetworkError { .. }) => true,
            (VocalizeError::MemoryError { .. }, VocalizeError::MemoryError { .. }) => true,
            (VocalizeError::TimeoutError { .. }, VocalizeError::TimeoutError { .. }) => true,
            (VocalizeError::ConcurrencyError { .. }, VocalizeError::ConcurrencyError { .. }) => true,
            _ => false,
        };
        same_kind && *self.carried() == *other.carried()
    }
}

impl vstd::std_specs::cmp::PartialEqSpecImpl for VocalizeError {
    open spec fn obeys_eq_spec() -> bool {
        true
    }

    open spec fn eq_spec(&self, other: &VocalizeError) -> bool {
        self.kind() == other.kind() && self.text() == other.text()
    }
}

impl Eq for VocalizeError {
}

} // verus!
