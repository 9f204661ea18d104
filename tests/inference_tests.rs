use vocalize_core::inference::{
    acquire_error, check_style_dimension, check_token_count, detect_session_settings,
    inference_failure_error, inference_timeout_error, is_quantized_model, needs_reload,
    output_index, pool_size_for, select_output, session_build_error, session_settings_for,
    unstable_style_error, validate_input_shape, OptimizationLevel,
};
use vocalize_core::session_pool::AcquireRefusal;
use vocalize_core::text::{contains_str, decimal_string, same_text};
use vocalize_core::{ModelId, OnnxSessionPool};

fn names(list: &[&str]) -> Vec<String> {
    list.iter().map(|s| s.to_string()).collect()
}

#[test]
fn token_count_boundary() {
    assert!(check_token_count(512).is_ok());
    let err = check_token_count(513).unwrap_err();
    assert_eq!(err.category(), "input");
    let text = err.to_string();
    assert!(text.contains("513"));
    assert!(text.contains("512"));
    assert_eq!(text, "Invalid input: Token sequence too long: 513 tokens (max 512)");
    assert!(check_token_count(0).is_ok());
}

#[test]
fn style_dimension_is_checked_before_values() {
    assert!(check_style_dimension(256).is_ok());
    let err = check_style_dimension(255).unwrap_err();
    assert_eq!(err.to_string(), "Invalid input: Style vector must be 256 dimensions, got 255");
    assert!(check_style_dimension(257).is_err());
    // A 256-long vector passes the shape checks; its values are judged later.
    assert!(validate_input_shape(3, 256).is_ok());
    assert!(validate_input_shape(3, 255).is_err());
}

#[test]
fn token_length_is_checked_first() {
    let err = validate_input_shape(600, 10).unwrap_err();
    assert_eq!(err.to_string(), "Invalid input: Token sequence too long: 600 tokens (max 512)");
    assert!(validate_input_shape(512, 256).is_ok());
}

#[test]
fn output_fallback_prefers_audio_then_output_then_first() {
    assert_eq!(select_output(&names(&["output"])), Some(0));
    assert_eq!(select_output(&names(&["x", "output"])), Some(1));
    assert_eq!(select_output(&names(&["output", "audio"])), Some(1));
    assert_eq!(select_output(&names(&["wave", "other"])), Some(0));
    assert_eq!(select_output(&names(&[])), None);
    let err = output_index(&names(&[])).unwrap_err();
    assert_eq!(err.to_string(), "TTS synthesis failed: No audio output found in model");
}

#[test]
fn output_only_tensor_is_extracted() {
    let outputs: Vec<(String, Vec<f32>)> = vec![("output".to_string(), vec![0.25, -0.5, 0.75])];
    let keys: Vec<String> = outputs.iter().map(|(k, _)| k.clone()).collect();
    let i = output_index(&keys).unwrap();
    assert_eq!(outputs[i].1, vec![0.25, -0.5, 0.75]);
}

#[test]
fn two_requests_on_a_pool_of_two() {
    // A stub session that answers every call with 100 samples under "audio".
    let stub = |_tokens: &[i64], _style: &[f32], _speed: f32| -> Vec<(String, Vec<f32>)> {
        vec![("audio".to_string(), vec![0.1f32; 100])]
    };
    let mut pool = OnnxSessionPool::new(vec![stub, stub]).unwrap();
    let tokens = [1i64, 2, 3];
    let style = [0.05f32; 256];
    assert!(validate_input_shape(tokens.len(), style.len()).is_ok());

    let g1 = pool.try_acquire_session().unwrap();
    let g2 = pool.try_acquire_session().unwrap();
    let mid = pool.stats();
    assert_eq!(mid.sessions_in_use, 2);
    assert_eq!(mid.available_sessions, 0);

    let mut lengths = Vec::new();
    for g in [&g1, &g2] {
        let outputs = (pool.session(g.session_id()))(&tokens, &style, 1.0);
        let keys: Vec<String> = outputs.iter().map(|(k, _)| k.clone()).collect();
        let i = output_index(&keys).unwrap();
        lengths.push(outputs[i].1.len());
    }
    pool.release(g1);
    pool.release(g2);
    assert_eq!(lengths, vec![100, 100]);
    assert_eq!(pool.stats().available_sessions, 2);
}

#[test]
fn reload_only_for_another_model() {
    assert!(needs_reload(None, ModelId::Kokoro));
    assert!(!needs_reload(Some(ModelId::Kokoro), ModelId::Kokoro));
    assert!(needs_reload(Some(ModelId::Dia), ModelId::Kokoro));
}

#[test]
fn quantized_models_get_conservative_settings() {
    assert!(is_quantized_model("kokoro-v1.0.int8.onnx"));
    assert!(is_quantized_model("MODEL_INT8.onnx"));
    assert!(!is_quantized_model("kokoro-v1.0.onnx"));
    assert!(!is_quantized_model("Int8.onnx"));

    let q = session_settings_for("model_int8.onnx", 16);
    assert!(q.quantized);
    assert_eq!(q.optimization, OptimizationLevel::Level1);
    assert_eq!(q.intra_threads, 4);
    assert_eq!(q.inter_threads, 2);
    assert!(!q.memory_pattern);
    assert_eq!(session_settings_for("model_int8.onnx", 2).intra_threads, 2);
}

#[test]
fn full_precision_models_get_aggressive_settings() {
    let f = session_settings_for("kokoro-v1.0.onnx", 16);
    assert!(!f.quantized);
    assert_eq!(f.optimization, OptimizationLevel::Level3);
    assert_eq!(f.intra_threads, 8);
    assert_eq!(f.inter_threads, 4);
    assert!(f.memory_pattern);
    let small = session_settings_for("kokoro.onnx", 3);
    assert_eq!(small.intra_threads, 3);
    assert_eq!(small.inter_threads, 2);
    let mid = session_settings_for("kokoro.onnx", 9);
    assert_eq!(mid.inter_threads, 3);
    let here = detect_session_settings("kokoro.onnx");
    assert!(here.intra_threads >= 1 && here.intra_threads <= 8);
}

#[test]
fn pool_size_is_half_the_parallelism_clamped() {
    assert_eq!(pool_size_for(Some(1)), 1);
    assert_eq!(pool_size_for(Some(2)), 1);
    assert_eq!(pool_size_for(Some(6)), 3);
    assert_eq!(pool_size_for(Some(64)), 4);
    assert_eq!(pool_size_for(None), 2);
}

#[test]
fn failures_are_reported_by_kind() {
    let e = session_build_error(1, 3, "bad file");
    assert_eq!(e.category(), "model");
    assert_eq!(e.to_string(), "Model loading error: Failed to create session 2 of 3: bad file");
    let t = acquire_error(AcquireRefusal::Exhausted);
    assert!(t.is_retriable());
    assert_eq!(t.category(), "timeout");
    let c = acquire_error(AcquireRefusal::Closed);
    assert!(!c.is_retriable());
    assert_eq!(c.category(), "concurrency");
    let i = inference_timeout_error();
    assert_eq!(i.category(), "timeout");
    assert!(i.to_string().contains(">30 seconds"));
    assert_eq!(
        inference_failure_error("shape mismatch").to_string(),
        "TTS synthesis failed: ONNX inference failed: shape mismatch"
    );
    assert!(unstable_style_error().is_user_error());
}

#[test]
fn text_helpers() {
    assert_eq!(decimal_string(0), "0");
    assert_eq!(decimal_string(7), "7");
    assert_eq!(decimal_string(10), "10");
    assert_eq!(decimal_string(176400), "176400");
    assert_eq!(decimal_string(usize::MAX), usize::MAX.to_string());
    assert!(contains_str("abcint8", "int8"));
    assert!(contains_str("x", ""));
    assert!(!contains_str("in", "int8"));
    assert!(same_text("ab", "ab"));
    assert!(!same_text("ab", "aB"));
}
