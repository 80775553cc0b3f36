//! The header of a WAV file of 16-bit PCM samples, as the recording check of
//! the microphone writes it.

use vstd::prelude::*;
use vstd::bytes::spec_u16_to_le_bytes;
use vstd::bytes::spec_u32_to_le_bytes;
use vstd::bytes::u16_to_le_bytes;
use vstd::bytes::u32_to_le_bytes;

verus! {

/// Bytes in a header.
pub const WAV_HEADER_LEN: usize = 44;

/// Bits in a sample.
pub const BITS_PER_SAMPLE: u16 = 16;

/// The layout of the samples that follow a header.
#[derive(Clone, Copy, Debug, PartialEq, Eq, Structural)]
pub struct WavFormat {
    pub channels: u16,
    pub sample_rate: u32,
}

impl WavFormat {
    /// Bytes of one sample of every channel.
    pub open spec fn block_align(self) -> int {
        self.channels * 2
    }

    /// Bytes of one second.
    pub open spec fn byte_rate(self) -> int {
        self.sample_rate * self.channels * 2
    }

    /// Whether a header can say this layout with `data_len` bytes of samples:
    /// each of its fields holds its number.
    pub open spec fn fits(self, data_len: u32) -> bool {
        &&& data_len + 36 <= u32::MAX
        &&& self.block_align() <= u16::MAX
        &&& self.byte_rate() <= u32::MAX
    }
}

pub open spec fn tag_riff() -> Seq<u8> {
    seq![82u8, 73u8, 70u8, 70u8]
}

pub open spec fn tag_wave() -> Seq<u8> {
    seq![87u8, 65u8, 86u8, 69u8]
}

pub open spec fn tag_fmt() -> Seq<u8> {
    seq![102u8, 109u8, 116u8, 32u8]
}

pub open spec fn tag_data() -> Seq<u8> {
    seq![100u8, 97u8, 116u8, 97u8]
}

/// The header, field by field; numbers are little-endian.
pub open spec fn spec_wav_header(format: WavFormat, data_len: u32) -> Seq<u8> {
    tag_riff() + spec_u32_to_le_bytes((data_len + 36) as u32) + tag_wave() + tag_fmt()
        + spec_u32_to_le_bytes(16) + spec_u16_to_le_bytes(1) + spec_u16_to_le_bytes(
        format.channels,
    ) + spec_u32_to_le_bytes(format.sample_rate) + spec_u32_to_le_bytes(format.byte_rate() as u32)
        + spec_u16_to_le_bytes(format.block_align() as u16) + spec_u16_to_le_bytes(BITS_PER_SAMPLE)
        + tag_data() + spec_u32_to_le_bytes(data_len)
}

fn put(header: &mut Vec<u8>, field: &Vec<u8>)
    ensures
        final(header)@ == old(header)@ + field@,
{
    let ghost before = header@;
    let mut i: usize = 0;
    while i < field.len()
        invariant
            i <= field@.len(),
            header@ == before + field@.subrange(0, i as int),
        decreases field@.len() - i,
    {
        header.push(field[i]);
        i = i + 1;
        assert(header@ =~= before + field@.subrange(0, i as int));
    }
    assert(header@ =~= before + field@);
}

/// Writes the header for `data_len` bytes of samples; `None` where a field
/// cannot hold its number.
pub fn wav_header(format: WavFormat, data_len: u32) -> (header: Option<Vec<u8>>)
    ensures
        header is Some <==> format.fits(data_len),
        header matches Some(bytes) ==> bytes@ == spec_wav_header(format, data_len),
{
    if data_len > u32::MAX - 36 || format.channels > u16::MAX / 2 {
        return None;
    }
    let block_align: u16 = format.channels * 2;
    assert(format.sample_rate * block_align <= 0xffff_ffff * 0xffff) by (nonlinear_arith)
        requires
            format.sample_rate <= 0xffff_ffff,
            block_align <= 0xffff,
    ;
    let byte_rate: u64 = format.sample_rate as u64 * block_align as u64;
    assert(byte_rate == format.byte_rate()) by (nonlinear_arith)
        requires
            byte_rate == format.sample_rate * block_align,
            block_align == format.channels * 2,
    ;
    if byte_rate > 0xffff_ffff {
        return None;
    }
    let mut header: Vec<u8> = Vec::new();
    put(&mut header, &vec![82u8, 73u8, 70u8, 70u8]);
    put(&mut header, &u32_to_le_bytes(data_len + 36));
    put(&mut header, &vec![87u8, 65u8, 86u8, 69u8]);
    put(&mut header, &vec![102u8, 109u8, 116u8, 32u8]);
    put(&mut header, &u32_to_le_bytes(16));
    put(&mut header, &u16_to_le_bytes(1));
    put(&mut header, &u16_to_le_bytes(format.channels));
    put(&mut header, &u32_to_le_bytes(format.sample_rate));
    put(&mut header, &u32_to_le_bytes(byte_rate as u32));
    put(&mut header, &u16_to_le_bytes(block_align));
    put(&mut header, &u16_to_le_bytes(BITS_PER_SAMPLE));
    put(&mut header, &vec![100u8, 97u8, 116u8, 97u8]);
    put(&mut header, &u32_to_le_bytes(data_len));
    assert(header@ =~= spec_wav_header(format, data_len));
    Some(header)
}

} // verus!
