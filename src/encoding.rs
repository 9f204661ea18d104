//! Rules on encoding settings that do not involve the quality value.

use vstd::prelude::*;

use crate::error::{VocalizeError, VocalizeResult};
use crate::text::{decimal, decimal_string};

verus! {

/// Lowest accepted sample rate, in Hz.
pub const MIN_SAMPLE_RATE: u32 = 8000;

/// Highest accepted sample rate, in Hz.
pub const MAX_SAMPLE_RATE: u32 = 192_000;

/// Largest accepted number of channels.
pub const MAX_CHANNELS: u16 = 8;

/// Size of a WAV header, in bytes.
pub const WAV_HEADER_SIZE: usize = 44;

/// The bit depths that can be written.
pub open spec fn supported_bit_depth(bit_depth: u16) -> bool {
    bit_depth == 8 || bit_depth == 16 || bit_depth == 24 || bit_depth == 32
}

/// The sample rate, channel count and bit depth of a layout, checked in this
/// order; the first that is out of range is reported with its value.
pub fn validate_encoding_layout(sample_rate: u32, channels: u16, bit_depth: u16) -> (r:
    VocalizeResult<()>)
    ensures
        r is Ok <==> MIN_SAMPLE_RATE <= sample_rate <= MAX_SAMPLE_RATE && 1 <= channels
            <= MAX_CHANNELS && supported_bit_depth(bit_depth),
        !(MIN_SAMPLE_RATE <= sample_rate <= MAX_SAMPLE_RATE) ==> (r matches Err(e) && e is InvalidInput
            && e.text() == "Sample rate must be between 8000 and 192000 Hz, got "@ + decimal(
            sample_rate as nat,
        )),
        MIN_SAMPLE_RATE <= sample_rate <= MAX_SAMPLE_RATE && !(1 <= channels <= MAX_CHANNELS) ==> (r matches Err(e)
            && e is InvalidInput && e.text() == "Channels must be between 1 and 8, got "@
            + decimal(channels as nat)),
        MIN_SAMPLE_RATE <= sample_rate <= MAX_SAMPLE_RATE && 1 <= channels <= MAX_CHANNELS
            && !supported_bit_depth(bit_depth) ==> (r matches Err(e) && e is InvalidInput && e.text()
            == "Bit depth must be 8, 16, 24, or 32, got "@ + decimal(bit_depth as nat)),
{
    if sample_rate < MIN_SAMPLE_RATE || sample_rate > MAX_SAMPLE_RATE {
        let mut m = String::from_str("Sample rate must be between 8000 and 192000 Hz, got ");
        m.append(decimal_string(sample_rate as usize).as_str());
        return Err(VocalizeError::invalid_input(m.as_str()));
    }
    if channels == 0 || channels > MAX_CHANNELS {
        let mut m = String::from_str("Channels must be between 1 and 8, got ");
        m.append(decimal_string(channels as usize).as_str());
        return Err(VocalizeError::invalid_input(m.as_str()));
    }
    if !(bit_depth == 8 || bit_depth == 16 || bit_depth == 24 || bit_depth == 32) {
        let mut m = String::from_str("Bit depth must be 8, 16, 24, or 32, got ");
        m.append(decimal_string(bit_depth as usize).as_str());
        return Err(VocalizeError::invalid_input(m.as_str()));
    }
    Ok(())
}

/// Size of a WAV file of `samples` samples per channel: the samples of every
/// channel at `bit_depth / 8` bytes each, and the header.
pub open spec fn wav_size(samples: nat, channels: nat, bit_depth: nat) -> nat {
    samples * channels * (bit_depth / 8) + WAV_HEADER_SIZE as nat
}

/// The size of a WAV file, or `None` when it does not fit a `usize`.
pub fn estimate_wav_size(samples: usize, channels: u16, bit_depth: u16) -> (r: Option<usize>)
    ensures
        r matches Some(n) ==> n == wav_size(samples as nat, channels as nat, bit_depth as nat),
        r is None <==> wav_size(samples as nat, channels as nat, bit_depth as nat) > usize::MAX,
{
    let c = channels as usize;
    let b = (bit_depth / 8) as usize;
    assert(c * b <= 0xffff * 0x2000) by (nonlinear_arith)
        requires
            c <= 0xffff,
            b <= 0x2000,
    ;
    let frame = c * b;
    assert(samples * channels * (bit_depth / 8) == samples * frame) by (nonlinear_arith)
        requires
            frame == channels * (bit_depth / 8),
    ;
    if frame == 0 {
        assert(samples * frame == 0) by (nonlinear_arith)
            requires
                frame == 0,
        ;
        return Some(WAV_HEADER_SIZE);
    }
    match samples.checked_mul(frame) {
        Some(data) => data.checked_add(WAV_HEADER_SIZE),
        None => None,
    }
}

} // verus!
