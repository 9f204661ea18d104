//! The WAV (RIFF) file layout.

use vstd::prelude::*;

use crate::error::{VocalizeError, VocalizeResult};

verus! {

/// WAV file format specification
#[derive(Debug, Clone, Copy, PartialEq, Eq, Structural)]
pub struct WavSpec {
    /// Number of audio channels (1 = mono, 2 = stereo)
    pub channels: u16,
    /// Sample rate in Hz (e.g., 24000, 44100, 48000)
    pub sample_rate: u32,
    /// Bits per sample (8, 16, 24, or 32)
    pub bit_depth: u16,
    /// Whether samples are floating point (only for 32-bit)
    pub is_float: bool,
}

impl WavSpec {
    /// Bytes per sample of one channel.
    pub open spec fn spec_bytes_per_sample(self) -> nat {
        (self.bit_depth / 8) as nat
    }

    /// Bytes per second.
    pub open spec fn spec_byte_rate(self) -> nat {
        (self.sample_rate * self.channels * self.spec_bytes_per_sample()) as nat
    }

    /// Bytes per sample frame (one sample of every channel).
    pub open spec fn spec_block_align(self) -> nat {
        (self.channels * self.spec_bytes_per_sample()) as nat
    }

    /// The rates of the layout fit the header's fields.
    pub open spec fn fits_header(self) -> bool {
        self.spec_byte_rate() <= u32::MAX && self.spec_block_align() <= u16::MAX
    }

    /// Create a new WAV specification
    pub fn new(channels: u16, sample_rate: u32, bit_depth: u16, is_float: bool) -> (r: Self)
        ensures
            r == (WavSpec { channels, sample_rate, bit_depth, is_float }),
    {
        WavSpec { channels, sample_rate, bit_depth, is_float }
    }

    /// Get bytes per sample
    pub fn bytes_per_sample(&self) -> (r: u16)
        ensures
            r == self.spec_bytes_per_sample(),
    {
        self.bit_depth / 8
    }

    /// Get byte rate (bytes per second)
    pub fn byte_rate(&self) -> (r: u32)
        requires
            self.spec_byte_rate() <= u32::MAX,
        ensures
            r == self.spec_byte_rate(),
    {
        let bps = self.bytes_per_sample() as u32;
        let channels = self.channels as u32;
        assert(channels * bps <= 0xffff * 0x2000) by (nonlinear_arith)
            requires
                channels <= 0xffff,
                bps <= 0x2000,
        ;
        let frame = channels * bps;
        assert(self.sample_rate * frame == self.spec_byte_rate()) by (nonlinear_arith)
            requires
                frame == self.channels * self.spec_bytes_per_sample(),
        ;
        self.sample_rate * frame
    }

    /// Get block align (bytes per sample frame)
    pub fn block_align(&self) -> (r: u16)
        requires
            self.spec_block_align() <= u16::MAX,
        ensures
            r == self.spec_block_align(),
    {
        self.channels * self.bytes_per_sample()
    }
}

/// `x` as two little-endian bytes.
pub open spec fn le16(x: nat) -> Seq<u8> {
    seq![(x % 256) as u8, ((x / 256) % 256) as u8]
}

/// `x` as four little-endian bytes.
pub open spec fn le32(x: nat) -> Seq<u8> {
    seq![
        (x % 256) as u8,
        ((x / 256) % 256) as u8,
        ((x / 65536) % 256) as u8,
        ((x / 16777216) % 256) as u8,
    ]
}

/// The two's complement bits of `v` in a field of `modulus` values.
pub open spec fn twos(v: int, modulus: int) -> nat {
    if v < 0 {
        (v + modulus) as nat
    } else {
        v as nat
    }
}

/// Sample format code of the header: 3 for IEEE float, 1 for PCM.
pub open spec fn format_code(spec: WavSpec) -> nat {
    if spec.is_float && spec.bit_depth == 32 {
        3
    } else {
        1
    }
}

/// The 44-byte RIFF/WAVE header for `data_size` bytes of samples.
pub open spec fn header_layout(spec: WavSpec, data_size: nat) -> Seq<u8> {
    seq![82u8, 73, 70, 70] + le32(36 + data_size) + seq![87u8, 65, 86, 69] + seq![
        102u8,
        109,
        116,
        32,
    ] + le32(16) + le16(format_code(spec)) + le16(spec.channels as nat) + le32(
        spec.sample_rate as nat,
    ) + le32(spec.spec_byte_rate()) + le16(spec.spec_block_align()) + le16(spec.bit_depth as nat)
        + seq![100u8, 97, 116, 97] + le32(data_size)
}

fn push_le16(out: &mut Vec<u8>, x: u16)
    ensures
        final(out)@ == old(out)@ + le16(x as nat),
{
    out.push((x % 256) as u8);
    out.push((x / 256) as u8);
    assert(final(out)@ =~= old(out)@ + le16(x as nat));
}

fn push_le32(out: &mut Vec<u8>, x: u32)
    ensures
        final(out)@ == old(out)@ + le32(x as nat),
{
    out.push((x % 256) as u8);
    out.push(((x / 256) % 256) as u8);
    out.push(((x / 65536) % 256) as u8);
    out.push((x / 16777216) as u8);
    assert(final(out)@ =~= old(out)@ + le32(x as nat));
}

fn push_tag(out: &mut Vec<u8>, a: u8, b: u8, c: u8, d: u8)
    ensures
        final(out)@ == old(out)@ + seq![a, b, c, d],
{
    out.push(a);
    out.push(b);
    out.push(c);
    out.push(d);
    assert(final(out)@ =~= old(out)@ + seq![a, b, c, d]);
}

impl WavSpec {
    /// The header of a file of this layout holding `data_size` bytes of samples.
    pub fn header_bytes(&self, data_size: u32) -> (r: Vec<u8>)
        requires
            data_size + 36 <= u32::MAX,
            self.fits_header(),
        ensures
            r@ == header_layout(*self, data_size as nat),
            r@.len() == 44,
    {
        let mut out: Vec<u8> = Vec::new();
        push_tag(&mut out, 82, 73, 70, 70);
        push_le32(&mut out, 36 + data_size);
        push_tag(&mut out, 87, 65, 86, 69);
        push_tag(&mut out, 102, 109, 116, 32);
        push_le32(&mut out, 16);
        let code: u16 = if self.is_float && self.bit_depth == 32 {
            3
        } else {
            1
        };
        push_le16(&mut out, code);
        push_le16(&mut out, self.channels);
        push_le32(&mut out, self.sample_rate);
        push_le32(&mut out, self.byte_rate());
        push_le16(&mut out, self.block_align());
        push_le16(&mut out, self.bit_depth);
        push_tag(&mut out, 100, 97, 116, 97);
        push_le32(&mut out, data_size);
        assert(out@ =~= header_layout(*self, data_size as nat));
        out
    }
}

/// A WAV file being assembled in memory: a layout and the sample bytes
/// written so far, in order.
pub struct WavEncoder {
    spec: WavSpec,
    data: Vec<u8>,
}

impl WavEncoder {
    pub closed spec fn spec_layout(&self) -> WavSpec {
        self.spec
    }

    /// The sample bytes written so far.
    pub closed spec fn spec_data(&self) -> Seq<u8> {
        self.data@
    }

    /// An empty file of the given layout.
    pub fn new(spec: WavSpec) -> (r: Self)
        ensures
            r.spec_layout() == spec,
            r.spec_data() == Seq::<u8>::empty(),
    {
        WavEncoder { spec, data: Vec::new() }
    }

    /// The layout of the file.
    pub fn spec(&self) -> (r: WavSpec)
        ensures
            r == self.spec_layout(),
    {
        self.spec
    }

    /// Number of sample bytes written so far.
    pub fn bytes_written(&self) -> (r: usize)
        ensures
            r == self.spec_data().len(),
    {
        self.data.len()
    }

    /// Write an 8-bit sample: stored unsigned, offset by 128.
    pub fn write_sample_i8(&mut self, sample: i8) -> (r: VocalizeResult<()>)
        ensures
            final(self).spec_layout() == old(self).spec_layout(),
            r is Ok <==> old(self).spec_layout().bit_depth == 8,
            r is Ok ==> final(self).spec_data() == old(self).spec_data() + seq![(sample + 128) as u8],
            r is Err ==> final(self).spec_data() == old(self).spec_data(),
            r matches Err(e) ==> e is InvalidInput && e.text()
                == "Cannot write 8-bit sample to non-8-bit WAV"@,
    {
        if self.spec.bit_depth != 8 {
            return Err(VocalizeError::invalid_input("Cannot write 8-bit sample to non-8-bit WAV"));
        }
        let unsigned = (sample as i16 + 128) as u8;
        self.data.push(unsigned);
        Ok(())
    }

    /// Write a 16-bit sample, little-endian two's complement.
    pub fn write_sample_i16(&mut self, sample: i16) -> (r: VocalizeResult<()>)
        ensures
            final(self).spec_layout() == old(self).spec_layout(),
            r is Ok <==> old(self).spec_layout().bit_depth == 16,
            r is Ok ==> final(self).spec_data() == old(self).spec_data() + le16(
                twos(sample as int, 65536),
            ),
            r is Err ==> final(self).spec_data() == old(self).spec_data(),
            r matches Err(e) ==> e is InvalidInput && e.text()
                == "Cannot write 16-bit sample to non-16-bit WAV"@,
    {
        if self.spec.bit_depth != 16 {
            return Err(
                VocalizeError::invalid_input("Cannot write 16-bit sample to non-16-bit WAV"),
            );
        }
        let bits: u16 = if sample < 0 {
            (sample as i32 + 65536) as u16
        } else {
            sample as u16
        };
        push_le16(&mut self.data, bits);
        Ok(())
    }

    /// Write a 24-bit sample: the lower three bytes of its 32-bit two's
    /// complement, little-endian.
    pub fn write_sample_i24(&mut self, sample: i32) -> (r: VocalizeResult<()>)
        ensures
            final(self).spec_layout() == old(self).spec_layout(),
            r is Ok <==> old(self).spec_layout().bit_depth == 24,
            r is Ok ==> final(self).spec_data() == old(self).spec_data() + le32(
                twos(sample as int, 4294967296),
            ).subrange(0, 3),
            r is Err ==> final(self).spec_data() == old(self).spec_data(),
            r matches Err(e) ==> e is InvalidInput && e.text()
                == "Cannot write 24-bit sample to non-24-bit WAV"@,
    {
        if self.spec.bit_depth != 24 {
            return Err(
                VocalizeError::invalid_input("Cannot write 24-bit sample to non-24-bit WAV"),
            );
        }
        let bits = twos32(sample);
        let mut four: Vec<u8> = Vec::new();
        push_le32(&mut four, bits);
        self.data.push(four[0]);
        self.data.push(four[1]);
        self.data.push(four[2]);
        assert(final(self).data@ =~= old(self).data@ + le32(twos(sample as int, 4294967296)).subrange(0, 3));
        Ok(())
    }

    /// Write a 32-bit integer sample, little-endian two's complement.
    pub fn write_sample_i32(&mut self, sample: i32) -> (r: VocalizeResult<()>)
        ensures
            final(self).spec_layout() == old(self).spec_layout(),
            r is Ok <==> old(self).spec_layout().bit_depth == 32 && !old(self).spec_layout().is_float,
            r is Ok ==> final(self).spec_data() == old(self).spec_data() + le32(
                twos(sample as int, 4294967296),
            ),
            r is Err ==> final(self).spec_data() == old(self).spec_data(),
            r matches Err(e) ==> e is InvalidInput && e.text()
                == "Cannot write 32-bit int sample to non-32-bit-int WAV"@,
    {
        if self.spec.bit_depth != 32 || self.spec.is_float {
            return Err(
                VocalizeError::invalid_input("Cannot write 32-bit int sample to non-32-bit-int WAV"),
            );
        }
        let bits = twos32(sample);
        push_le32(&mut self.data, bits);
        Ok(())
    }

    /// Write a 32-bit float sample given by its IEEE-754 bits, little-endian.
    pub fn write_sample_f32_bits(&mut self, bits: u32) -> (r: VocalizeResult<()>)
        ensures
            final(self).spec_layout() == old(self).spec_layout(),
            r is Ok <==> old(self).spec_layout().bit_depth == 32 && old(self).spec_layout().is_float,
            r is Ok ==> final(self).spec_data() == old(self).spec_data() + le32(bits as nat),
            r is Err ==> final(self).spec_data() == old(self).spec_data(),
            r matches Err(e) ==> e is InvalidInput && e.text()
                == "Cannot write float sample to non-float WAV"@,
    {
        if self.spec.bit_depth != 32 || !self.spec.is_float {
            return Err(VocalizeError::invalid_input("Cannot write float sample to non-float WAV"));
        }
        push_le32(&mut self.data, bits);
        Ok(())
    }

    /// The whole file: the header, then the samples. A file whose sizes do
    /// not fit the header's 32-bit fields is refused.
    pub fn finish(&self) -> (r: VocalizeResult<Vec<u8>>)
        ensures
            r is Ok <==> self.spec_data().len() + 36 <= u32::MAX && self.spec_layout().fits_header(),
            r matches Ok(bytes) ==> bytes@ == header_layout(
                self.spec_layout(),
                self.spec_data().len(),
            ) + self.spec_data(),
            r matches Err(e) ==> e is InvalidInput,
    {
        let size = self.data.len();
        if size > 4294967259 {
            return Err(VocalizeError::invalid_input("WAV data too large for a RIFF header"));
        }
        let bps = (self.spec.bit_depth / 8) as u64;
        let channels = self.spec.channels as u64;
        let rate = self.spec.sample_rate as u64;
        assert(channels * bps <= 0xffff * 0x2000) by (nonlinear_arith)
            requires
                channels <= 0xffff,
                bps <= 0x2000,
        ;
        let frame = channels * bps;
        assert(rate * frame <= 0xffff_ffff * (0xffff * 0x2000)) by (nonlinear_arith)
            requires
                rate <= 0xffff_ffff,
                frame <= 0xffff * 0x2000,
        ;
        assert(frame == self.spec.spec_block_align());
        assert(rate * frame == self.spec.spec_byte_rate()) by (nonlinear_arith)
            requires
                frame == self.spec.channels * self.spec.spec_bytes_per_sample(),
                rate == self.spec.sample_rate,
        ;
        if rate * frame > 0xffff_ffff || frame > 0xffff {
            return Err(VocalizeError::invalid_input("WAV layout does not fit a RIFF header"));
        }
        let mut out = self.spec.header_bytes(size as u32);
        let mut i: usize = 0;
        while i < self.data.len()
            invariant
                out@ == header_layout(self.spec, size as nat) + self.data@.subrange(0, i as int),
                i <= self.data@.len(),
            decreases self.data@.len() - i,
        {
            out.push(self.data[i]);
            i = i + 1;
            assert(out@ =~= header_layout(self.spec, size as nat) + self.data@.subrange(0, i as int));
        }
        assert(self.data@.subrange(0, i as int) =~= self.data@);
        Ok(out)
    }
}

/// The 32-bit two's complement bits of `v`.
fn twos32(v: i32) -> (r: u32)
    ensures
        r == twos(v as int, 4294967296),
{
    if v < 0 {
        ((v as i64) + 4294967296) as u32
    } else {
        v as u32
    }
}

} // verus!
