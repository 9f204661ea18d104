use vocalize_core::wav::WavEncoder;
use vocalize_core::WavSpec;

#[test]
fn header_of_mono_16_bit() {
    let spec = WavSpec::new(1, 24000, 16, false);
    let h = spec.header_bytes(100);
    assert_eq!(h.len(), 44);
    assert_eq!(&h[0..4], b"RIFF");
    assert_eq!(&h[4..8], &136u32.to_le_bytes());
    assert_eq!(&h[8..12], b"WAVE");
    assert_eq!(&h[12..16], b"fmt ");
    assert_eq!(&h[16..20], &16u32.to_le_bytes());
    assert_eq!(&h[20..22], &1u16.to_le_bytes());
    assert_eq!(&h[22..24], &1u16.to_le_bytes());
    assert_eq!(&h[24..28], &24000u32.to_le_bytes());
    assert_eq!(&h[28..32], &48000u32.to_le_bytes());
    assert_eq!(&h[32..34], &2u16.to_le_bytes());
    assert_eq!(&h[34..36], &16u16.to_le_bytes());
    assert_eq!(&h[36..40], b"data");
    assert_eq!(&h[40..44], &100u32.to_le_bytes());
}

#[test]
fn float_layout_uses_format_three() {
    let spec = WavSpec::new(2, 44100, 32, true);
    let h = spec.header_bytes(0);
    assert_eq!(&h[20..22], &3u16.to_le_bytes());
    assert_eq!(&h[28..32], &352800u32.to_le_bytes());
    assert_eq!(&h[32..34], &8u16.to_le_bytes());
}

#[test]
fn samples_are_encoded_little_endian() {
    let mut enc = WavEncoder::new(WavSpec::new(1, 24000, 16, false));
    enc.write_sample_i16(16383).unwrap();
    enc.write_sample_i16(-2).unwrap();
    assert_eq!(enc.bytes_written(), 4);
    let bytes = enc.finish().unwrap();
    assert_eq!(bytes.len(), 48);
    assert_eq!(&bytes[44..46], &16383i16.to_le_bytes());
    assert_eq!(&bytes[46..48], &(-2i16).to_le_bytes());
    assert_eq!(&bytes[40..44], &4u32.to_le_bytes());
    assert_eq!(&bytes[4..8], &40u32.to_le_bytes());
}

#[test]
fn wrong_bit_depth_is_refused() {
    let mut enc = WavEncoder::new(WavSpec::new(1, 24000, 16, false));
    let err = enc.write_sample_i8(5).unwrap_err();
    assert_eq!(err.category(), "input");
    assert!(enc.write_sample_i24(5).is_err());
    assert!(enc.write_sample_i32(5).is_err());
    assert!(enc.write_sample_f32_bits(0.5f32.to_bits()).is_err());
    assert_eq!(enc.bytes_written(), 0);
}

#[test]
fn narrow_and_wide_samples() {
    let mut e8 = WavEncoder::new(WavSpec::new(1, 8000, 8, false));
    e8.write_sample_i8(-128).unwrap();
    e8.write_sample_i8(127).unwrap();
    let b = e8.finish().unwrap();
    assert_eq!(&b[44..], &[0u8, 255u8]);

    let mut e24 = WavEncoder::new(WavSpec::new(1, 8000, 24, false));
    e24.write_sample_i24(-1).unwrap();
    e24.write_sample_i24(0x123456).unwrap();
    let b = e24.finish().unwrap();
    assert_eq!(&b[44..], &[0xff, 0xff, 0xff, 0x56, 0x34, 0x12]);

    let mut e32 = WavEncoder::new(WavSpec::new(1, 8000, 32, false));
    e32.write_sample_i32(i32::MIN).unwrap();
    assert_eq!(&e32.finish().unwrap()[44..], &i32::MIN.to_le_bytes());

    let mut ef = WavEncoder::new(WavSpec::new(1, 8000, 32, true));
    ef.write_sample_f32_bits(0.25f32.to_bits()).unwrap();
    assert_eq!(&ef.finish().unwrap()[44..], &0.25f32.to_le_bytes());
}

#[test]
fn oversized_layout_is_refused() {
    let enc = WavEncoder::new(WavSpec::new(65535, u32::MAX, 32, false));
    assert!(enc.finish().is_err());
}
