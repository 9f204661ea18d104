//! Model identifiers, their metadata, and the configuration of a loaded model.

use vstd::prelude::*;

use std::path::PathBuf;

verus! {

/// `std::path::PathBuf`, carried through unread.
#[verifier::external_type_specification]
#[verifier::external_body]
pub struct ExPathBuf(PathBuf);

/// Relies on `PathBuf::clone`, used by the derived `Clone` of the types that hold a path.
pub assume_specification[ <PathBuf as Clone>::clone ](p: &PathBuf) -> PathBuf;

/// Supported TTS model identifiers
#[derive(Debug, Clone, Copy, PartialEq, Eq, Hash, Structural)]
pub enum ModelId {
    /// Kokoro TTS - Default model
    Kokoro,
    /// Chatterbox - Premium model
    Chatterbox,
    /// Dia - Premium model
    Dia,
}

impl ModelId {
    /// The name of a model.
    pub open spec fn name(self) -> Seq<char> {
        match self {
            ModelId::Kokoro => "kokoro"@,
            ModelId::Chatterbox => "chatterbox"@,
            ModelId::Dia => "dia"@,
        }
    }

    /// Get the default model (Kokoro TTS)
    pub fn default() -> (r: Self)
        ensures
            r == ModelId::Kokoro,
    {
        ModelId::Kokoro
    }

    /// Get model name as string
    pub fn as_str(&self) -> (r: &'static str)
        ensures
            r@ == self.name(),
    {
        match self {
            ModelId::Kokoro => "kokoro",
            ModelId::Chatterbox => "chatterbox",
            ModelId::Dia => "dia",
        }
    }
}

/// Model configuration and metadata
#[derive(Debug, Clone)]
pub struct ModelInfo {
    /// Model identifier
    pub id: ModelId,
    /// Human-readable model name
    pub name: String,
    /// Model description
    pub description: String,
    /// Model size in megabytes
    pub size_mb: u64,
    /// Software license
    pub license: String,
    /// Audio sample rate
    pub sample_rate: u32,
    /// Repository the files come from
    pub repo_id: String,
    /// Required model files
    pub files: Vec<String>,
}

impl ModelInfo {
    /// The names of the files that a model needs.
    pub open spec fn file_names(&self) -> Seq<Seq<char>> {
        self.files@.map_values(|f: String| f@)
    }

    /// Get Kokoro TTS model info (default)
    pub fn kokoro() -> (r: Self)
        ensures
            r.id == ModelId::Kokoro,
            r.name@ == "Kokoro TTS"@,
            r.description@ == "2025 optimized neural TTS model (82M parameters)"@,
            r.size_mb == 410,
            r.license@ == "Apache 2.0"@,
            r.sample_rate == 24000,
            r.repo_id@ == "direct_download"@,
            r.file_names() == seq!["kokoro-v1.0.onnx"@, "voices-v1.0.bin"@],
    {
        let r = ModelInfo {
            id: ModelId::Kokoro,
            name: "Kokoro TTS".to_owned(),
            description: "2025 optimized neural TTS model (82M parameters)".to_owned(),
            size_mb: 410,
            license: "Apache 2.0".to_owned(),
            sample_rate: 24000,
            repo_id: "direct_download".to_owned(),
            files: vec!["kokoro-v1.0.onnx".to_owned(), "voices-v1.0.bin".to_owned()],
        };
        assert(r.file_names() =~= seq!["kokoro-v1.0.onnx"@, "voices-v1.0.bin"@]);
        r
    }

    /// Get Chatterbox model info (premium)
    pub fn chatterbox() -> (r: Self)
        ensures
            r.id == ModelId::Chatterbox,
            r.name@ == "Chatterbox TTS"@,
            r.description@ == "Fast neural TTS model (150MB)"@,
            r.size_mb == 150,
            r.license@ == "Apache 2.0"@,
            r.sample_rate == 22050,
            r.repo_id@ == "facebook/chatterbox-en"@,
            r.file_names() == seq!["model.onnx"@, "tokenizer.json"@],
    {
        let r = ModelInfo {
            id: ModelId::Chatterbox,
            name: "Chatterbox TTS".to_owned(),
            description: "Fast neural TTS model (150MB)".to_owned(),
            size_mb: 150,
            license: "Apache 2.0".to_owned(),
            sample_rate: 22050,
            repo_id: "facebook/chatterbox-en".to_owned(),
            files: vec!["model.onnx".to_owned(), "tokenizer.json".to_owned()],
        };
        assert(r.file_names() =~= seq!["model.onnx"@, "tokenizer.json"@]);
        r
    }

    /// Get Dia model info (premium, high-quality)
    pub fn dia() -> (r: Self)
        ensures
            r.id == ModelId::Dia,
            r.name@ == "Dia TTS"@,
            r.description@ == "Premium neural TTS model (1.6GB)"@,
            r.size_mb == 1600,
            r.license@ == "Apache 2.0"@,
            r.sample_rate == 48000,
            r.repo_id@ == "microsoft/dia-en-large"@,
            r.file_names() == seq!["pytorch_model.bin"@, "config.json"@, "tokenizer.json"@],
    {
        let r = ModelInfo {
            id: ModelId::Dia,
            name: "Dia TTS".to_owned(),
            description: "Premium neural TTS model (1.6GB)".to_owned(),
            size_mb: 1600,
            license: "Apache 2.0".to_owned(),
            sample_rate: 48000,
            repo_id: "microsoft/dia-en-large".to_owned(),
            files: vec![
                "pytorch_model.bin".to_owned(),
                "config.json".to_owned(),
                "tokenizer.json".to_owned(),
            ],
        };
        assert(r.file_names() =~= seq!["pytorch_model.bin"@, "config.json"@, "tokenizer.json"@]);
        r
    }

    /// The metadata of model `id`.
    pub fn for_model(id: ModelId) -> (r: Self)
        ensures
            r.id == id,
    {
        match id {
            ModelId::Kokoro => ModelInfo::kokoro(),
            ModelId::Chatterbox => ModelInfo::chatterbox(),
            ModelId::Dia => ModelInfo::dia(),
        }
    }
}

/// Default maximum text length of a model configuration.
pub const DEFAULT_MODEL_MAX_LENGTH: usize = 1000;

/// Model configuration for the inference runtime
#[derive(Debug, Clone)]
pub struct ModelConfig {
    /// Path to the model file
    pub model_path: PathBuf,
    /// Audio sample rate
    pub sample_rate: u32,
    /// Maximum text length for synthesis
    pub max_length: usize,
}

impl ModelConfig {
    /// Create a new model configuration
    pub fn new(model_path: PathBuf, sample_rate: u32) -> (r: Self)
        ensures
            r.model_path == model_path,
            r.sample_rate == sample_rate,
            r.max_length == DEFAULT_MODEL_MAX_LENGTH,
    {
        ModelConfig { model_path, sample_rate, max_length: DEFAULT_MODEL_MAX_LENGTH }
    }
}

} // verus!
