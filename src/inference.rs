//! The rules around one inference call: which requests may reach the native
//! runtime, how each session is configured, how large a pool is, which output
//! tensor holds the audio, and how each failure is reported.

use vstd::prelude::*;

use crate::error::VocalizeError;
use crate::model::ModelId;
use crate::session_pool::AcquireRefusal;
use crate::text::{contains_str, contains_text, decimal, decimal_string};

verus! {

/// Largest number of tokens in one request.
pub const MAX_TOKENS: usize = 512;

/// Exact length of a style vector.
pub const STYLE_DIM: usize = 256;

/// Seconds that one inference call may take.
pub const INFERENCE_TIMEOUT_SECS: u64 = 30;

/// Seconds that an acquisition waits for a free session by default.
pub const ACQUIRE_TIMEOUT_SECS: u64 = 30;

/// Largest pool that the engine builds.
pub const MAX_POOL_SIZE: usize = 4;

/// Pool size when the parallelism of the machine is unknown.
pub const FALLBACK_POOL_SIZE: usize = 2;

/// Message of a request with too many tokens.
pub open spec fn too_many_tokens_text(count: nat) -> Seq<char> {
    "Token sequence too long: "@ + decimal(count) + " tokens (max "@ + decimal(
        MAX_TOKENS as nat,
    ) + ")"@
}

/// Message of a style vector of the wrong length.
pub open spec fn style_dimension_text(len: nat) -> Seq<char> {
    "Style vector must be "@ + decimal(STYLE_DIM as nat) + " dimensions, got "@ + decimal(len)
}

/// A request may carry at most `MAX_TOKENS` tokens.
pub fn check_token_count(count: usize) -> (r: Result<(), VocalizeError>)
    ensures
        r is Ok <==> count <= MAX_TOKENS,
        r matches Err(e) ==> e is InvalidInput && e.text() == too_many_tokens_text(count as nat),
{
    if count > MAX_TOKENS {
        let mut m = String::from_str("Token sequence too long: ");
        m.append(decimal_string(count).as_str());
        m.append(" tokens (max ");
        m.append(decimal_string(MAX_TOKENS).as_str());
        m.append(")");
        return Err(VocalizeError::invalid_input(m.as_str()));
    }
    Ok(())
}

/// A style vector has exactly `STYLE_DIM` values.
pub fn check_style_dimension(len: usize) -> (r: Result<(), VocalizeError>)
    ensures
        r is Ok <==> len == STYLE_DIM,
        r matches Err(e) ==> e is InvalidInput && e.text() == style_dimension_text(len as nat),
{
    if len != STYLE_DIM {
        let mut m = String::from_str("Style vector must be ");
        m.append(decimal_string(STYLE_DIM).as_str());
        m.append(" dimensions, got ");
        m.append(decimal_string(len).as_str());
        return Err(VocalizeError::invalid_input(m.as_str()));
    }
    Ok(())
}

/// The shape checks of a request, in order: first the token count, then the
/// style vector's length. The values of the style vector are checked after
/// these, and only if both pass.
pub fn validate_input_shape(token_count: usize, style_len: usize) -> (r: Result<(), VocalizeError>)
    ensures
        r is Ok <==> token_count <= MAX_TOKENS && style_len == STYLE_DIM,
        token_count > MAX_TOKENS ==> (r matches Err(e) && e is InvalidInput && e.text()
            == too_many_tokens_text(token_count as nat)),
        token_count <= MAX_TOKENS && style_len != STYLE_DIM ==> (r matches Err(e) && e is InvalidInput
            && e.text() == style_dimension_text(style_len as nat)),
{
    check_token_count(token_count)?;
    check_style_dimension(style_len)
}

/// Error of a style vector whose values fail the stability checks.
pub fn unstable_style_error() -> (r: VocalizeError)
    ensures
        r is InvalidInput,
        r.text() == "Invalid style vector detected - contains values that would cause model instability"@,
{
    VocalizeError::invalid_input(
        "Invalid style vector detected - contains values that would cause model instability",
    )
}

/// The pool must be rebuilt unless `requested` is the model already loaded.
pub fn needs_reload(current: Option<ModelId>, requested: ModelId) -> (r: bool)
    ensures
        r == (current != Some(requested)),
{
    match current {
        Some(m) => m != requested,
        None => true,
    }
}

/// `key` is the name at some position of `names`.
pub open spec fn has_name(names: Seq<Seq<char>>, key: Seq<char>) -> bool {
    exists|i: int| 0 <= i < names.len() && names[i] == key
}

/// `i` is the first position of `key` in `names`.
pub open spec fn first_position(names: Seq<Seq<char>>, key: Seq<char>, i: int) -> bool {
    &&& 0 <= i < names.len()
    &&& names[i] == key
    &&& forall|j: int| 0 <= j < i ==> names[j] != key
}

/// The views of a list of names.
pub open spec fn name_views(names: Seq<String>) -> Seq<Seq<char>> {
    names.map_values(|s: String| s@)
}

/// The output to read the audio from: the one named `audio`; failing that,
/// the one named `output`; failing that, the first one.
pub open spec fn output_choice(names: Seq<Seq<char>>, i: int) -> bool {
    if has_name(names, "audio"@) {
        first_position(names, "audio"@, i)
    } else if has_name(names, "output"@) {
        first_position(names, "output"@, i)
    } else {
        names.len() > 0 && i == 0
    }
}

/// Position of the first name equal to `key`, if any.
fn find_name(names: &Vec<String>, key: &str) -> (r: Option<usize>)
    ensures
        r matches Some(i) ==> first_position(name_views(names@), key@, i as int),
        r is None ==> !has_name(name_views(names@), key@),
{
    let k = key.to_owned();
    let mut i: usize = 0;
    while i < names.len()
        invariant
            k@ == key@,
            i <= names@.len(),
            forall|j: int| 0 <= j < i ==> names@[j]@ != key@,
        decreases names@.len() - i,
    {
        if names[i] == k {
            return Some(i);
        }
        i = i + 1;
    }
    None
}

/// Choose among the outputs of an inference call, given by name in the order
/// in which the call lists them, the one that holds the audio.
pub fn select_output(names: &Vec<String>) -> (r: Option<usize>)
    ensures
        r is None <==> names@.len() == 0,
        r matches Some(i) ==> output_choice(name_views(names@), i as int),
{
    if let Some(i) = find_name(names, "audio") {
        return Some(i);
    }
    if let Some(i) = find_name(names, "output") {
        return Some(i);
    }
    if names.len() > 0 {
        Some(0)
    } else {
        None
    }
}

/// As `select_output`, with the error of a call that gave no output at all.
pub fn output_index(names: &Vec<String>) -> (r: Result<usize, VocalizeError>)
    ensures
        r is Err <==> names@.len() == 0,
        r matches Ok(i) ==> output_choice(name_views(names@), i as int),
        r matches Err(e) ==> e is SynthesisError && e.text() == "No audio output found in model"@,
{
    match select_output(names) {
        Some(i) => Ok(i),
        None => Err(VocalizeError::synthesis("No audio output found in model")),
    }
}

/// Graph optimization levels that the engine uses.
#[derive(Debug, Clone, Copy, PartialEq, Eq, Structural)]
pub enum OptimizationLevel {
    /// Basic optimizations only.
    Level1,
    /// All optimizations.
    Level3,
}

/// How one session is built.
#[derive(Debug, Clone, Copy, PartialEq, Eq, Structural)]
pub struct SessionSettings {
    /// Whether the model file is a quantized (INT8) variant.
    pub quantized: bool,
    /// Graph optimization level.
    pub optimization: OptimizationLevel,
    /// Threads inside one operator.
    pub intra_threads: usize,
    /// Threads across operators.
    pub inter_threads: usize,
    /// Whether memory-pattern optimization is on.
    pub memory_pattern: bool,
}

/// A model file is quantized when its name holds `int8` or `INT8`.
pub open spec fn is_quantized_name(file_name: Seq<char>) -> bool {
    contains_text(file_name, "int8"@) || contains_text(file_name, "INT8"@)
}

/// The smaller of two numbers.
pub open spec fn min_nat(a: nat, b: nat) -> nat {
    if a <= b {
        a
    } else {
        b
    }
}

/// The larger of two numbers.
pub open spec fn max_nat(a: nat, b: nat) -> nat {
    if a >= b {
        a
    } else {
        b
    }
}

/// The build policy: conservative for a quantized model (basic optimization,
/// at most 4 intra-op threads, 2 inter-op threads, no memory pattern);
/// aggressive otherwise (all optimizations, at most 8 intra-op threads,
/// a third of the cores between 2 and 4 inter-op threads, memory pattern on).
pub open spec fn settings_policy(quantized: bool, physical_cores: nat) -> SessionSettings {
    if quantized {
        SessionSettings {
            quantized: true,
            optimization: OptimizationLevel::Level1,
            intra_threads: min_nat(4, physical_cores) as usize,
            inter_threads: 2,
            memory_pattern: false,
        }
    } else {
        SessionSettings {
            quantized: false,
            optimization: OptimizationLevel::Level3,
            intra_threads: min_nat(physical_cores, 8) as usize,
            inter_threads: min_nat(4, max_nat(2, physical_cores / 3)) as usize,
            memory_pattern: true,
        }
    }
}

/// Whether the model file named `file_name` is a quantized variant.
pub fn is_quantized_model(file_name: &str) -> (r: bool)
    ensures
        r == is_quantized_name(file_name@),
{
    contains_str(file_name, "int8") || contains_str(file_name, "INT8")
}

/// The settings of a session for the model file `file_name` on a machine with
/// `physical_cores` cores.
pub fn session_settings_for(file_name: &str, physical_cores: usize) -> (r: SessionSettings)
    ensures
        r == settings_policy(is_quantized_name(file_name@), physical_cores as nat),
{
    if is_quantized_model(file_name) {
        SessionSettings {
            quantized: true,
            optimization: OptimizationLevel::Level1,
            intra_threads: if physical_cores < 4 {
                physical_cores
            } else {
                4
            },
            inter_threads: 2,
            memory_pattern: false,
        }
    } else {
        let third = physical_cores / 3;
        let inter = if third < 2 {
            2
        } else if third > 4 {
            4
        } else {
            third
        };
        SessionSettings {
            quantized: false,
            optimization: OptimizationLevel::Level3,
            intra_threads: if physical_cores < 8 {
                physical_cores
            } else {
                8
            },
            inter_threads: inter,
            memory_pattern: true,
        }
    }
}

/// Relies on `num_cpus::get_physical`: the number of physical cores of this
/// machine, which its documentation promises is at least 1.
#[verifier::external_body]
fn physical_core_count() -> (r: usize)
    ensures
        r >= 1,
{
    num_cpus::get_physical()
}

/// The settings of a session for the model file `file_name` on this machine.
pub fn detect_session_settings(file_name: &str) -> (r: SessionSettings)
    ensures
        exists|cores: nat|
            cores >= 1 && r == settings_policy(is_quantized_name(file_name@), cores),
{
    let cores = physical_core_count();
    session_settings_for(file_name, cores)
}

/// The number of sessions of a pool: half the machine's parallelism, between
/// 1 and `MAX_POOL_SIZE`, or `FALLBACK_POOL_SIZE` when it is unknown.
pub open spec fn pool_size_policy(parallelism: Option<usize>) -> nat {
    match parallelism {
        Some(p) => min_nat(max_nat((p / 2) as nat, 1), MAX_POOL_SIZE as nat),
        None => FALLBACK_POOL_SIZE as nat,
    }
}

/// Number of sessions to build for a machine of the given parallelism.
pub fn pool_size_for(parallelism: Option<usize>) -> (r: usize)
    ensures
        r == pool_size_policy(parallelism),
        1 <= r <= MAX_POOL_SIZE,
{
    match parallelism {
        Some(p) => {
            let half = p / 2;
            if half < 1 {
                1
            } else if half > MAX_POOL_SIZE {
                MAX_POOL_SIZE
            } else {
                half
            }
        },
        None => FALLBACK_POOL_SIZE,
    }
}

/// Message of a session that failed to build.
pub open spec fn session_build_text(attempt: nat, pool_size: nat, cause: Seq<char>) -> Seq<char> {
    "Failed to create session "@ + decimal(attempt + 1) + " of "@ + decimal(pool_size) + ": "@
        + cause
}

/// Error of the session at position `attempt` (counted from 0) of a pool of
/// `pool_size` that failed to build for `cause`; the message counts from 1.
pub fn session_build_error(attempt: usize, pool_size: usize, cause: &str) -> (r: VocalizeError)
    requires
        attempt < pool_size,
    ensures
        r is ModelError,
        r.text() == session_build_text(attempt as nat, pool_size as nat, cause@),
{
    let mut m = String::from_str("Failed to create session ");
    m.append(decimal_string(attempt + 1).as_str());
    m.append(" of ");
    m.append(decimal_string(pool_size).as_str());
    m.append(": ");
    m.append(cause);
    VocalizeError::model(m.as_str())
}

/// Error of an acquisition that was refused: a pool that is out of permits
/// when the wait is over times out, one that was closed is fatal.
pub fn acquire_error(refusal: AcquireRefusal) -> (r: VocalizeError)
    ensures
        refusal is Exhausted ==> r is TimeoutError && r.text()
            == "Timeout waiting for available session"@,
        refusal is Closed ==> r is ConcurrencyError && r.text() == "Semaphore closed"@,
{
    match refusal {
        AcquireRefusal::Exhausted => VocalizeError::timeout("Timeout waiting for available session"),
        AcquireRefusal::Closed => VocalizeError::concurrency("Semaphore closed"),
    }
}

/// Error of an inference call that ran past `INFERENCE_TIMEOUT_SECS`.
pub fn inference_timeout_error() -> (r: VocalizeError)
    ensures
        r is TimeoutError,
        r.text()
            == "Synthesis timeout: Model inference hung for >30 seconds. This usually indicates invalid input data or model corruption."@,
{
    VocalizeError::timeout(
        "Synthesis timeout: Model inference hung for >30 seconds. This usually indicates invalid input data or model corruption.",
    )
}

/// Error of the native runtime failing a call, with its own description.
pub fn inference_failure_error(cause: &str) -> (r: VocalizeError)
    ensures
        r is SynthesisError,
        r.text() == "ONNX inference failed: "@ + cause@,
{
    let mut m = String::from_str("ONNX inference failed: ");
    m.append(cause);
    VocalizeError::synthesis(m.as_str())
}

} // verus!
