use vocalize_core::voice_file::{combined_voice_values, individual_voice_values, locate_voice};

fn entry(id: &str, offset: u32, size: u32) -> Vec<u8> {
    let mut e = vec![0u8; 32];
    e[..id.len()].copy_from_slice(id.as_bytes());
    e.extend_from_slice(&offset.to_le_bytes());
    e.extend_from_slice(&size.to_le_bytes());
    e
}

fn file(entries: &[(&str, u32, u32)], data_len: usize) -> Vec<u8> {
    let mut f = (entries.len() as u32).to_le_bytes().to_vec();
    for (id, off, size) in entries {
        f.extend(entry(id, *off, *size));
    }
    f.extend(vec![7u8; data_len]);
    f
}

#[test]
fn finds_the_named_voice() {
    // Header: 4 + 2 * 40 = 84 bytes, then 16 bytes of data.
    let f = file(&[("af_bella", 84, 8), ("am_adam", 92, 8)], 16);
    assert_eq!(locate_voice(&f, "af_bella").unwrap(), (84, 92));
    assert_eq!(locate_voice(&f, "am_adam").unwrap(), (92, 100));
}

#[test]
fn missing_voice_and_short_files() {
    let f = file(&[("af_bella", 44, 8)], 8);
    let e = locate_voice(&f, "nobody").unwrap_err();
    assert_eq!(e.to_string(), "TTS synthesis failed: Voice 'nobody' not found in combined voices file");
    let e = locate_voice(&vec![1, 0], "x").unwrap_err();
    assert_eq!(
        e.to_string(),
        "TTS synthesis failed: Combined voices file too small to contain header"
    );
    let e = locate_voice(&vec![3, 0, 0, 0, 0], "x").unwrap_err();
    assert_eq!(
        e.to_string(),
        "TTS synthesis failed: Combined voices file too small for 3 voice entries"
    );
}

#[test]
fn voice_data_must_fit_and_be_whole_values() {
    let f = file(&[("v", 44, 100)], 8);
    let e = locate_voice(&f, "v").unwrap_err();
    assert_eq!(e.to_string(), "TTS synthesis failed: Voice data for 'v' extends beyond file bounds");
    let f = file(&[("v", 44, 6)], 8);
    let e = locate_voice(&f, "v").unwrap_err();
    assert_eq!(e.to_string(), "TTS synthesis failed: Voice data size 6 not divisible by 4");
}

#[test]
fn single_voice_file_sizes() {
    assert_eq!(individual_voice_values(1024).unwrap(), 256);
    assert_eq!(individual_voice_values(130560 * 4).unwrap(), 256);
    assert_eq!(individual_voice_values(40).unwrap(), 10);
    assert!(individual_voice_values(0).is_err());
    let e = individual_voice_values(10).unwrap_err();
    assert_eq!(e.to_string(), "TTS synthesis failed: Invalid voice file format: size 10 not divisible by 4");
    assert_eq!(combined_voice_values(300), 256);
    assert_eq!(combined_voice_values(12), 12);
}
