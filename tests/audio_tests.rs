use std::time::Duration;

use vocalize_core::{AudioConfig, AudioDeviceInfo, AudioFormat, PlaybackState};

#[test]
fn test_playback_state_display() {
    assert_eq!(PlaybackState::Stopped.to_string(), "Stopped");
    assert_eq!(PlaybackState::Playing.to_string(), "Playing");
    assert_eq!(PlaybackState::Paused.to_string(), "Paused");
    assert_eq!(PlaybackState::Error.to_string(), "Error");
}

#[test]
fn test_audio_device_info() {
    let info = AudioDeviceInfo {
        id: "test_device".to_string(),
        name: "Test Device".to_string(),
        channels: 2,
        sample_rates: vec![44100, 48000],
        is_default: true,
    };

    assert_eq!(info.id, "test_device");
    assert_eq!(info.name, "Test Device");
    assert_eq!(info.channels, 2);
    assert_eq!(info.sample_rates, vec![44100, 48000]);
    assert!(info.is_default);
}

#[test]
fn test_audio_config_default() {
    let config = AudioConfig::default();
    assert_eq!(config.device_id, None);
    assert_eq!(config.sample_rate, vocalize_core::DEFAULT_SAMPLE_RATE);
    assert_eq!(config.channels, vocalize_core::DEFAULT_CHANNELS);
    assert_eq!(config.buffer_size, 1024);
    assert_eq!(config.latency, Duration::from_millis(50));
}

#[test]
fn test_playback_state_equality() {
    assert_eq!(PlaybackState::Stopped, PlaybackState::Stopped);
    assert_ne!(PlaybackState::Playing, PlaybackState::Stopped);
    assert_ne!(PlaybackState::Paused, PlaybackState::Playing);
    assert_ne!(PlaybackState::Error, PlaybackState::Paused);
}

#[test]
fn test_audio_device_info_equality() {
    let info1 = AudioDeviceInfo {
        id: "test".to_string(),
        name: "Test".to_string(),
        channels: 2,
        sample_rates: vec![44100],
        is_default: true,
    };

    let info2 = AudioDeviceInfo {
        id: "test".to_string(),
        name: "Test".to_string(),
        channels: 2,
        sample_rates: vec![44100],
        is_default: true,
    };

    let info3 = AudioDeviceInfo {
        id: "different".to_string(),
        name: "Different".to_string(),
        channels: 1,
        sample_rates: vec![48000],
        is_default: false,
    };

    assert_eq!(info1, info2);
    assert_ne!(info1, info3);
}

#[test]
fn device_infos_differing_only_in_rates_differ() {
    let a = AudioDeviceInfo {
        id: "d".to_string(),
        name: "D".to_string(),
        channels: 2,
        sample_rates: vec![44100, 48000],
        is_default: false,
    };
    let mut b = a.clone();
    b.sample_rates = vec![44100];
    assert_ne!(a, b);
}

#[test]
fn test_audio_format_extension() {
    assert_eq!(AudioFormat::Wav.extension(), "wav");
    assert_eq!(AudioFormat::Mp3.extension(), "mp3");
    assert_eq!(AudioFormat::Flac.extension(), "flac");
    assert_eq!(AudioFormat::Ogg.extension(), "ogg");
}

#[test]
fn test_audio_format_mime_type() {
    assert_eq!(AudioFormat::Wav.mime_type(), "audio/wav");
    assert_eq!(AudioFormat::Mp3.mime_type(), "audio/mpeg");
    assert_eq!(AudioFormat::Flac.mime_type(), "audio/flac");
    assert_eq!(AudioFormat::Ogg.mime_type(), "audio/ogg");
}

#[test]
fn test_audio_format_is_lossy() {
    assert!(!AudioFormat::Wav.is_lossy());
    assert!(AudioFormat::Mp3.is_lossy());
    assert!(!AudioFormat::Flac.is_lossy());
    assert!(AudioFormat::Ogg.is_lossy());
}

#[test]
fn test_audio_format_description() {
    assert_eq!(AudioFormat::Wav.description(), "Waveform Audio File Format");
    assert_eq!(AudioFormat::Mp3.description(), "MPEG Audio Layer III");
    assert_eq!(AudioFormat::Flac.description(), "Free Lossless Audio Codec");
    assert_eq!(AudioFormat::Ogg.description(), "Ogg Vorbis");
}

#[test]
fn test_audio_format_from_extension() {
    assert_eq!(AudioFormat::from_extension("wav").unwrap(), AudioFormat::Wav);
    assert_eq!(AudioFormat::from_extension("WAV").unwrap(), AudioFormat::Wav);
    assert_eq!(AudioFormat::from_extension("mp3").unwrap(), AudioFormat::Mp3);
    assert_eq!(AudioFormat::from_extension("flac").unwrap(), AudioFormat::Flac);
    assert_eq!(AudioFormat::from_extension("ogg").unwrap(), AudioFormat::Ogg);

    assert!(AudioFormat::from_extension("xyz").is_err());
}

#[test]
fn test_audio_format_from_path() {
    assert_eq!(AudioFormat::from_path("test.wav").unwrap(), AudioFormat::Wav);
    assert_eq!(AudioFormat::from_path("/path/to/file.mp3").unwrap(), AudioFormat::Mp3);
    assert_eq!(AudioFormat::from_path("audio.FLAC").unwrap(), AudioFormat::Flac);

    assert!(AudioFormat::from_path("no_extension").is_err());
    assert!(AudioFormat::from_path("file.xyz").is_err());
}

#[test]
fn test_audio_format_all() {
    let formats = AudioFormat::all();
    assert_eq!(formats.len(), 4);
    assert!(formats.contains(&AudioFormat::Wav));
    assert!(formats.contains(&AudioFormat::Mp3));
    assert!(formats.contains(&AudioFormat::Flac));
    assert!(formats.contains(&AudioFormat::Ogg));
}

#[test]
fn test_audio_format_display() {
    assert_eq!(AudioFormat::Wav.to_string(), "WAV");
    assert_eq!(AudioFormat::Mp3.to_string(), "MP3");
    assert_eq!(AudioFormat::Flac.to_string(), "FLAC");
    assert_eq!(AudioFormat::Ogg.to_string(), "OGG");
}

#[test]
fn unsupported_extension_is_named_in_error() {
    let err = AudioFormat::from_extension("Xyz").unwrap_err();
    assert_eq!(err.to_string(), "Invalid input: Unsupported audio format: Xyz");
    let err = AudioFormat::from_path("no_extension").unwrap_err();
    assert_eq!(
        err.to_string(),
        "Invalid input: No file extension found in path: no_extension"
    );
}

#[test]
fn lowercase_extension_is_matched_exactly() {
    assert_eq!(AudioFormat::from_lowercase_extension("ogg"), Some(AudioFormat::Ogg));
    assert_eq!(AudioFormat::from_lowercase_extension("OGG"), None);
    assert_eq!(AudioFormat::from_extension("OgG").unwrap(), AudioFormat::Ogg);
    assert_eq!(AudioFormat::from_path("dir.d/clip.Mp3").unwrap(), AudioFormat::Mp3);
    assert!(AudioFormat::from_path(".wav").is_err());
}

#[test]
fn test_audio_format_detection() {
    // Test format detection from extensions
    assert_eq!(AudioFormat::from_extension("wav").unwrap(), AudioFormat::Wav);
    assert_eq!(AudioFormat::from_extension("MP3").unwrap(), AudioFormat::Mp3);
    assert_eq!(AudioFormat::from_extension("flac").unwrap(), AudioFormat::Flac);
    assert_eq!(AudioFormat::from_extension("OGG").unwrap(), AudioFormat::Ogg);

    // Test format detection from paths
    assert_eq!(AudioFormat::from_path("test.wav").unwrap(), AudioFormat::Wav);
    assert_eq!(AudioFormat::from_path("/path/to/audio.mp3").unwrap(), AudioFormat::Mp3);

    // Test format properties
    assert!(!AudioFormat::Wav.is_lossy());
    assert!(AudioFormat::Mp3.is_lossy());
    assert!(!AudioFormat::Flac.is_lossy());
    assert!(AudioFormat::Ogg.is_lossy());
}

#[test]
fn test_audio_config() {
    let config = AudioConfig::default();
    assert_eq!(config.device_id, None);
    assert_eq!(config.sample_rate, vocalize_core::DEFAULT_SAMPLE_RATE);
    assert_eq!(config.channels, vocalize_core::DEFAULT_CHANNELS);
    assert_eq!(config.buffer_size, 1024);
    assert_eq!(config.latency, Duration::from_millis(50));
}

#[test]
fn test_playback_state() {
    assert_eq!(PlaybackState::Stopped.to_string(), "Stopped");
    assert_eq!(PlaybackState::Playing.to_string(), "Playing");
    assert_eq!(PlaybackState::Paused.to_string(), "Paused");
    assert_eq!(PlaybackState::Error.to_string(), "Error");

    assert_eq!(PlaybackState::Stopped, PlaybackState::Stopped);
    assert_ne!(PlaybackState::Playing, PlaybackState::Stopped);
}
