//! The WAV (RIFF) container for 16-bit PCM recordings: the 44-byte header
//! and the little-endian sample data that follows it.
use vstd::prelude::*;

verus! {

/// Little-endian encoding of a 16-bit value.
pub open spec fn le16(v: int) -> Seq<u8> {
    seq![(v % 256) as u8, ((v / 256) % 256) as u8]
}

/// Little-endian encoding of a 32-bit value.
pub open spec fn le32(v: int) -> Seq<u8> {
    seq![
        (v % 256) as u8,
        ((v / 256) % 256) as u8,
        ((v / 65536) % 256) as u8,
        ((v / 16777216) % 256) as u8,
    ]
}

/// The 44-byte header of a PCM WAV file: the `RIFF` chunk (size
/// `36 + data_size`, form `WAVE`), the 16-byte `fmt ` chunk (format 1 = PCM,
/// channels, sample rate, byte rate, block alignment, bits per sample) and
/// the header of the `data` chunk holding `data_size` bytes.
pub open spec fn wav_header(sample_rate: u32, channels: u16, bits_per_sample: u16, data_size: u32) -> Seq<u8> {
    seq![82u8, 73, 70, 70] // "RIFF"
        + le32(36 + data_size)
        + seq![87u8, 65, 86, 69] // "WAVE"
        + seq![102u8, 109, 116, 32] // "fmt "
        + le32(16)
        + le16(1)
        + le16(channels as int)
        + le32(sample_rate as int)
        + le32(sample_rate * channels * bits_per_sample / 8)
        + le16(channels * bits_per_sample / 8)
        + le16(bits_per_sample as int)
        + seq![100u8, 97, 116, 97] // "data"
        + le32(data_size as int)
}

/// The 16-bit little-endian number stored at `i` in `h`.
pub open spec fn u16_at(h: Seq<u8>, i: int) -> int {
    h[i] + 256 * h[i + 1]
}

/// The 32-bit little-endian number stored at `i` in `h`.
pub open spec fn u32_at(h: Seq<u8>, i: int) -> int {
    h[i] + 256 * h[i + 1] + 65536 * h[i + 2] + 16777216 * h[i + 3]
}

proof fn lemma_le16_reads_back(v: int)
    requires
        0 <= v < 65536,
    ensures
        le16(v).len() == 2,
        u16_at(le16(v), 0) == v,
{
    let lo = v % 256;
    let hi = v / 256;
    assert(v == 256 * hi + lo && 0 <= lo < 256 && 0 <= hi < 256) by (nonlinear_arith)
        requires
            0 <= v < 65536,
            lo == v % 256,
            hi == v / 256,
    ;
    assert(hi % 256 == hi) by (nonlinear_arith)
        requires
            0 <= hi < 256,
    ;
}

proof fn lemma_le32_reads_back(v: int)
    requires
        0 <= v <= 0xffff_ffff,
    ensures
        le32(v).len() == 4,
        u32_at(le32(v), 0) == v,
{
    let b0 = v % 256;
    let b1 = (v / 256) % 256;
    let b2 = (v / 65536) % 256;
    let b3 = (v / 16777216) % 256;
    assert(v == b0 + 256 * b1 + 65536 * b2 + 16777216 * b3 && 0 <= b0 < 256 && 0 <= b1 < 256 && 0 <= b2 < 256
        && 0 <= b3 < 256) by (nonlinear_arith)
        requires
            0 <= v <= 0xffff_ffff,
            b0 == v % 256,
            b1 == (v / 256) % 256,
            b2 == (v / 65536) % 256,
            b3 == (v / 16777216) % 256,
    ;
}

/// The WAV header read back field by field gives what was asked for: the
/// `RIFF`/`WAVE`/`fmt `/`data` tags at offsets 0, 8, 12 and 36; the RIFF
/// size `36 + data_size` at 4; the format chunk size 16 at 16 and format 1
/// (PCM) at 20; the channel count at 22; the sample rate at 24; the byte
/// rate `sample_rate * channels * bits_per_sample / 8` at 28; the block
/// alignment `channels * bits_per_sample / 8` at 32; the bits per sample at
/// 34; and the data size at 40. For whole-byte samples the channel count is
/// the block alignment in bits divided by the bits per sample.
pub proof fn lemma_wav_header_fields(sample_rate: u32, channels: u16, bits_per_sample: u16, data_size: u32)
    requires
        sample_rate * channels <= u32::MAX,
        sample_rate * channels * bits_per_sample <= u32::MAX,
        channels * bits_per_sample <= u16::MAX,
        36 + data_size <= u32::MAX,
    ensures
        ({
            let h = wav_header(sample_rate, channels, bits_per_sample, data_size);
            &&& h.len() == 44
            &&& h[0] == 82 && h[1] == 73 && h[2] == 70 && h[3] == 70
            &&& u32_at(h, 4) == 36 + data_size
            &&& h[8] == 87 && h[9] == 65 && h[10] == 86 && h[11] == 69
            &&& h[12] == 102 && h[13] == 109 && h[14] == 116 && h[15] == 32
            &&& u32_at(h, 16) == 16
            &&& u16_at(h, 20) == 1
            &&& u16_at(h, 22) == channels
            &&& u32_at(h, 24) == sample_rate
            &&& u32_at(h, 28) == sample_rate * channels * bits_per_sample / 8
            &&& u16_at(h, 32) == channels * bits_per_sample / 8
            &&& u16_at(h, 34) == bits_per_sample
            &&& h[36] == 100 && h[37] == 97 && h[38] == 116 && h[39] == 97
            &&& u32_at(h, 40) == data_size
            &&& (bits_per_sample > 0 && bits_per_sample % 8 == 0) ==> u16_at(h, 32) * 8 / (bits_per_sample as int)
                == u16_at(h, 22)
        }),
{
    let byte_rate = sample_rate * channels * bits_per_sample / 8;
    let block_align = channels * bits_per_sample / 8;
    assert(0 <= byte_rate <= 0xffff_ffff) by (nonlinear_arith)
        requires
            sample_rate * channels * bits_per_sample <= u32::MAX,
            byte_rate == sample_rate * channels * bits_per_sample / 8,
    ;
    assert(0 <= block_align < 65536) by (nonlinear_arith)
        requires
            channels * bits_per_sample <= u16::MAX,
            block_align == channels * bits_per_sample / 8,
    ;
    lemma_le32_reads_back(36 + data_size);
    lemma_le32_reads_back(16);
    lemma_le16_reads_back(1);
    lemma_le16_reads_back(channels as int);
    lemma_le32_reads_back(sample_rate as int);
    lemma_le32_reads_back(byte_rate);
    lemma_le16_reads_back(block_align);
    lemma_le16_reads_back(bits_per_sample as int);
    lemma_le32_reads_back(data_size as int);
    let h = wav_header(sample_rate, channels, bits_per_sample, data_size);
    let a = le32(36 + data_size);
    let c = le16(channels as int);
    let sr = le32(sample_rate as int);
    let br = le32(byte_rate);
    let ba = le16(block_align);
    let bps = le16(bits_per_sample as int);
    let ds = le32(data_size as int);
    assert(h =~= seq![82u8, 73, 70, 70] + a + seq![87u8, 65, 86, 69] + seq![102u8, 109, 116, 32] + le32(16)
        + le16(1) + c + sr + br + ba + bps + seq![100u8, 97, 116, 97] + ds);
    assert(h[4] == a[0] && h[5] == a[1] && h[6] == a[2] && h[7] == a[3]);
    assert(h[16] == le32(16)[0] && h[17] == le32(16)[1] && h[18] == le32(16)[2] && h[19] == le32(16)[3]);
    assert(h[20] == le16(1)[0] && h[21] == le16(1)[1]);
    assert(h[22] == c[0] && h[23] == c[1]);
    assert(h[24] == sr[0] && h[25] == sr[1] && h[26] == sr[2] && h[27] == sr[3]);
    assert(h[28] == br[0] && h[29] == br[1] && h[30] == br[2] && h[31] == br[3]);
    assert(h[32] == ba[0] && h[33] == ba[1]);
    assert(h[34] == bps[0] && h[35] == bps[1]);
    assert(h[40] == ds[0] && h[41] == ds[1] && h[42] == ds[2] && h[43] == ds[3]);
    if bits_per_sample > 0 && bits_per_sample % 8 == 0 {
        let b = bits_per_sample as int;
        let ch = channels as int;
        let k = b / 8;
        assert(b == 8 * k && k > 0) by (nonlinear_arith)
            requires
                b > 0,
                b % 8 == 0,
                k == b / 8,
        ;
        assert(ch * b == 8 * (ch * k)) by (nonlinear_arith)
            requires
                b == 8 * k,
        ;
        vstd::arithmetic::div_mod::lemma_div_multiples_vanish(ch * k, 8);
        assert(ch * b / 8 == ch * k);
        assert((ch * k) * 8 == ch * b) by (nonlinear_arith)
            requires
                b == 8 * k,
        ;
        vstd::arithmetic::div_mod::lemma_div_multiples_vanish(ch, b);
        assert(b * ch == ch * b) by (nonlinear_arith);
        assert((ch * b / 8) * 8 / b == ch);
    }
}

fn push_le16(out: &mut Vec<u8>, v: u16)
    ensures
        final(out)@ == old(out)@ + le16(v as int),
{
    out.push((v % 256) as u8);
    out.push((v / 256) as u8);
    assert(final(out)@ =~= old(out)@ + le16(v as int));
}

fn push_le32(out: &mut Vec<u8>, v: u32)
    ensures
        final(out)@ == old(out)@ + le32(v as int),
{
    out.push((v % 256) as u8);
    out.push(((v / 256) % 256) as u8);
    out.push(((v / 65536) % 256) as u8);
    out.push((v / 16777216) as u8);
    assert(final(out)@ =~= old(out)@ + le32(v as int));
}

fn push_all(out: &mut Vec<u8>, bytes: &[u8])
    ensures
        final(out)@ == old(out)@ + bytes@,
{
    let mut i: usize = 0;
    while i < bytes.len()
        invariant
            0 <= i <= bytes@.len(),
            out@ == old(out)@ + bytes@.subrange(0, i as int),
        decreases bytes@.len() - i,
    {
        out.push(bytes[i]);
        i = i + 1;
        assert(out@ =~= old(out)@ + bytes@.subrange(0, i as int));
    }
    assert(bytes@.subrange(0, bytes@.len() as int) =~= bytes@);
}

/// Builds the 44-byte WAV header. The byte rate, block alignment and RIFF
/// size must fit their fields.
pub fn build_wav_header(sample_rate: u32, channels: u16, bits_per_sample: u16, data_size: u32) -> (r: Vec<u8>)
    requires
        sample_rate * channels <= u32::MAX,
        sample_rate * channels * bits_per_sample <= u32::MAX,
        channels * bits_per_sample <= u16::MAX,
        36 + data_size <= u32::MAX,
    ensures
        r@ == wav_header(sample_rate, channels, bits_per_sample, data_size),
        r@.len() == 44,
{
    let byte_rate: u32 = sample_rate * (channels as u32) * (bits_per_sample as u32) / 8;
    let block_align: u16 = channels * bits_per_sample / 8;
    let chunk_size: u32 = 36 + data_size;
    let mut header: Vec<u8> = Vec::new();
    push_all(&mut header, &[82u8, 73, 70, 70]);
    push_le32(&mut header, chunk_size);
    push_all(&mut header, &[87u8, 65, 86, 69]);
    push_all(&mut header, &[102u8, 109, 116, 32]);
    push_le32(&mut header, 16);
    push_le16(&mut header, 1);
    push_le16(&mut header, channels);
    push_le32(&mut header, sample_rate);
    push_le32(&mut header, byte_rate);
    push_le16(&mut header, block_align);
    push_le16(&mut header, bits_per_sample);
    push_all(&mut header, &[100u8, 97, 116, 97]);
    push_le32(&mut header, data_size);
    header
}

/// The 16-bit two's-complement pattern of a sample, as an unsigned value.
pub open spec fn sample_bits(s: i16) -> int {
    if s < 0 {
        s + 65536
    } else {
        s as int
    }
}

/// The data-chunk bytes of 16-bit samples: each sample little-endian, in
/// order.
pub open spec fn pcm16_bytes(samples: Seq<i16>) -> Seq<u8>
    decreases samples.len(),
{
    if samples.len() == 0 {
        seq![]
    } else {
        pcm16_bytes(samples.drop_last()) + le16(sample_bits(samples.last()))
    }
}

/// Encodes 16-bit samples as the little-endian bytes of a WAV data chunk.
pub fn pcm16_le_bytes(samples: &[i16]) -> (r: Vec<u8>)
    ensures
        r@ == pcm16_bytes(samples@),
        r@.len() == 2 * samples@.len(),
{
    let mut out: Vec<u8> = Vec::new();
    let mut i: usize = 0;
    while i < samples.len()
        invariant
            0 <= i <= samples@.len(),
            out@ == pcm16_bytes(samples@.subrange(0, i as int)),
            out@.len() == 2 * i,
        decreases samples@.len() - i,
    {
        let s = samples[i];
        let bits: u16 = if s < 0 {
            (s as i32 + 65536) as u16
        } else {
            s as u16
        };
        push_le16(&mut out, bits);
        assert(samples@.subrange(0, i + 1).drop_last() =~= samples@.subrange(0, i as int));
        i = i + 1;
    }
    assert(samples@.subrange(0, samples@.len() as int) =~= samples@);
    out
}

} // verus!
