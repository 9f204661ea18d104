use vocalize_core::{AudioConfig, AudioDevice, PlaybackState};

#[test]
fn test_get_available_devices() {
    let devices = AudioDevice::get_available_devices().expect("Should get devices");
    assert!(!devices.is_empty());
    assert!(devices.iter().any(|d| d.is_default));
}

#[test]
fn test_audio_device_state_management() {
    let mut device = AudioDevice::new_mock();

    // Initial state
    assert!(device.is_stopped());
    assert!(!device.is_playing());
    assert!(!device.is_paused());

    // Start playback
    device.start().expect("Should start");
    assert!(device.is_playing());

    // Pause playback
    device.pause().expect("Should pause");
    assert!(device.is_paused());

    // Resume playback
    device.resume().expect("Should resume");
    assert!(device.is_playing());

    // Stop playback
    device.stop().expect("Should stop");
    assert!(device.is_stopped());
}

#[test]
fn test_audio_device_pause_not_playing() {
    let mut device = AudioDevice::new_mock();
    let result = device.pause();
    assert!(result.is_err());
    assert_eq!(device.get_state(), PlaybackState::Stopped);
}

#[test]
fn test_audio_device_resume_not_paused() {
    let mut device = AudioDevice::new_mock();
    let result = device.resume();
    assert!(result.is_err());
}

#[test]
fn test_audio_device_get_device_info() {
    let device = AudioDevice::new_mock();
    let info = device.get_device_info();
    assert!(info.is_some());
    assert_eq!(info.unwrap(), "Mock Audio Device");
}

#[test]
fn test_audio_device_get_queue_status() {
    let device = AudioDevice::new_mock();
    let (data, space) = device.get_queue_status();
    assert_eq!(data, 0);
    assert_eq!(space, 1024);
}

#[test]
fn test_audio_device_play_empty() {
    let mut device = AudioDevice::new_mock();
    assert!(device.begin_play(0).is_err());
    assert!(device.is_stopped());
}

#[test]
fn simulated_playback_lasts_the_samples_duration_capped() {
    let mut device = AudioDevice::new_mock();
    assert_eq!(device.begin_play(1200).unwrap(), 50);
    assert!(device.is_playing());
    device.finish_play();
    assert!(device.is_stopped());
    assert_eq!(device.begin_play(24000 * 5).unwrap(), 100);
    let mut custom = AudioDevice::with_config(AudioConfig { sample_rate: 48000, ..AudioConfig::default() });
    assert_eq!(custom.get_config().sample_rate, 48000);
    assert_eq!(custom.begin_play(480).unwrap(), 10);
}
