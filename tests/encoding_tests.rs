use vocalize_core::encoding::{estimate_wav_size, validate_encoding_layout};

#[test]
fn encoding_layout_ranges() {
    assert!(validate_encoding_layout(24000, 1, 16).is_ok());
    assert!(validate_encoding_layout(8000, 8, 32).is_ok());
    assert!(validate_encoding_layout(192_000, 2, 24).is_ok());
    let e = validate_encoding_layout(1000, 1, 16).unwrap_err();
    assert_eq!(
        e.to_string(),
        "Invalid input: Sample rate must be between 8000 and 192000 Hz, got 1000"
    );
    assert!(validate_encoding_layout(200_000, 1, 16).is_err());
    let e = validate_encoding_layout(24000, 0, 16).unwrap_err();
    assert_eq!(e.to_string(), "Invalid input: Channels must be between 1 and 8, got 0");
    assert!(validate_encoding_layout(24000, 9, 16).is_err());
    let e = validate_encoding_layout(24000, 1, 12).unwrap_err();
    assert_eq!(e.to_string(), "Invalid input: Bit depth must be 8, 16, 24, or 32, got 12");
}

#[test]
fn wav_size_estimate() {
    assert_eq!(estimate_wav_size(24000, 1, 16), Some(48044));
    assert_eq!(estimate_wav_size(0, 2, 16), Some(44));
    assert_eq!(estimate_wav_size(10, 2, 24), Some(104));
    assert_eq!(estimate_wav_size(usize::MAX, 2, 16), None);
}
