//! 16-bit mono PCM in the RIFF/WAVE container, as hound's `WavWriter`
//! writes it for a `WavSpec` of one channel, 16 bits per sample and integer
//! samples: a 44-byte header (RIFF chunk, a 16-byte PCMWAVEFORMAT `fmt `
//! chunk, the `data` chunk header) followed by the samples in little-endian
//! order.

use vstd::prelude::*;

verus! {

/// The sample rate of the capture pipeline, in samples per second.
pub const WHISPER_SAMPLE_RATE: u32 = 16000;

/// The most samples whose WAVE file sizes fit the 32-bit size fields.
pub const MAX_WAV_SAMPLES: usize = 0x7fff_ffed;

/// `x` as two little-endian bytes.
pub open spec fn le16(x: u16) -> Seq<u8> {
    seq![(x % 256) as u8, (x / 256) as u8]
}

/// `x` as four little-endian bytes.
pub open spec fn le32(x: u32) -> Seq<u8> {
    seq![
        (x % 256) as u8,
        ((x / 256) % 256) as u8,
        ((x / 65536) % 256) as u8,
        (x / 16777216) as u8,
    ]
}

/// The ASCII bytes "RIFF".
pub open spec fn riff_tag() -> Seq<u8> {
    seq![0x52u8, 0x49u8, 0x46u8, 0x46u8]
}

/// The ASCII bytes "WAVE".
pub open spec fn wave_tag() -> Seq<u8> {
    seq![0x57u8, 0x41u8, 0x56u8, 0x45u8]
}

/// The ASCII bytes "fmt ".
pub open spec fn fmt_tag() -> Seq<u8> {
    seq![0x66u8, 0x6du8, 0x74u8, 0x20u8]
}

/// The ASCII bytes "data".
pub open spec fn data_tag() -> Seq<u8> {
    seq![0x64u8, 0x61u8, 0x74u8, 0x61u8]
}

/// The 44-byte header of a 16-bit mono file holding `n` samples.
pub open spec fn wav_header(n: nat, sample_rate: u32) -> Seq<u8> {
    riff_tag() + le32((36 + 2 * n) as u32) + wave_tag() + fmt_tag() + le32(16) + le16(1) + le16(1)
        + le32(sample_rate) + le32((sample_rate * 2) as u32) + le16(2) + le16(16) + data_tag()
        + le32((2 * n) as u32)
}

/// The samples, each as its two's complement in two little-endian bytes.
pub open spec fn sample_bytes(samples: Seq<i16>) -> Seq<u8>
    decreases samples.len(),
{
    if samples.len() == 0 {
        Seq::empty()
    } else {
        sample_bytes(samples.drop_last()) + le16(samples.last() as u16)
    }
}

/// A complete 16-bit mono WAVE file of `samples`.
pub open spec fn wav_file(samples: Seq<i16>, sample_rate: u32) -> Seq<u8> {
    wav_header(samples.len(), sample_rate) + sample_bytes(samples)
}

fn push_le16(out: &mut Vec<u8>, x: u16)
    ensures
        final(out)@ == old(out)@ + le16(x),
{
    out.push((x % 256) as u8);
    out.push((x / 256) as u8);
    assert(final(out)@ =~= old(out)@ + le16(x));
}

fn push_le32(out: &mut Vec<u8>, x: u32)
    ensures
        final(out)@ == old(out)@ + le32(x),
{
    out.push((x % 256) as u8);
    out.push(((x / 256) % 256) as u8);
    out.push(((x / 65536) % 256) as u8);
    out.push((x / 16777216) as u8);
    assert(final(out)@ =~= old(out)@ + le32(x));
}

fn push_tag(out: &mut Vec<u8>, a: u8, b: u8, c: u8, d: u8)
    ensures
        final(out)@ == old(out)@ + seq![a, b, c, d],
{
    out.push(a);
    out.push(b);
    out.push(c);
    out.push(d);
    assert(final(out)@ =~= old(out)@ + seq![a, b, c, d]);
}

/// Encodes mono 16-bit samples at [`WHISPER_SAMPLE_RATE`] as a WAVE file.
pub fn encode_wav(samples: &[i16]) -> (wav: Vec<u8>)
    requires
        samples@.len() <= MAX_WAV_SAMPLES,
    ensures
        wav@ == wav_file(samples@, WHISPER_SAMPLE_RATE),
{
    let n = samples.len();
    let data_len: u32 = (2 * n) as u32;
    let mut out: Vec<u8> = Vec::new();
    push_tag(&mut out, 0x52, 0x49, 0x46, 0x46);
    push_le32(&mut out, 36 + data_len);
    push_tag(&mut out, 0x57, 0x41, 0x56, 0x45);
    push_tag(&mut out, 0x66, 0x6d, 0x74, 0x20);
    push_le32(&mut out, 16);
    push_le16(&mut out, 1);
    push_le16(&mut out, 1);
    push_le32(&mut out, WHISPER_SAMPLE_RATE);
    push_le32(&mut out, WHISPER_SAMPLE_RATE * 2);
    push_le16(&mut out, 2);
    push_le16(&mut out, 16);
    push_tag(&mut out, 0x64, 0x61, 0x74, 0x61);
    push_le32(&mut out, data_len);
    let ghost header = out@;
    assert(header =~= wav_header(samples@.len(), WHISPER_SAMPLE_RATE));
    assert(samples@.take(0) =~= Seq::<i16>::empty());
    for i in 0..n
        invariant
            n == samples@.len(),
            out@ == header + sample_bytes(samples@.take(i as int)),
    {
        push_le16(&mut out, samples[i] as u16);
        assert(samples@.take(i + 1).drop_last() =~= samples@.take(i as int));
        assert(out@ =~= header + sample_bytes(samples@.take(i + 1)));
    }
    assert(samples@.take(n as int) =~= samples@);
    out
}

/// The little-endian number in the four bytes of `b` from `i`.
pub open spec fn le_u32_at(b: Seq<u8>, i: int) -> int {
    b[i] as int + 256 * b[i + 1] as int + 65536 * b[i + 2] as int + 16777216 * b[i + 3] as int
}

proof fn lemma_le32_decodes(x: u32)
    ensures
        le_u32_at(le32(x), 0) == x,
{
    let b0 = x % 256;
    let b1 = (x / 256) % 256;
    let b2 = (x / 65536) % 256;
    let b3 = x / 16777216;
    assert(b0 + 256 * b1 + 65536 * b2 + 16777216 * b3 == x) by (bit_vector)
        requires
            b0 == x % 256,
            b1 == (x / 256) % 256,
            b2 == (x / 65536) % 256,
            b3 == x / 16777216,
    ;
    assert(b3 < 256) by (bit_vector)
        requires
            b3 == x / 16777216,
    ;
}

proof fn lemma_sample_bytes_len(samples: Seq<i16>)
    ensures
        sample_bytes(samples).len() == 2 * samples.len(),
    decreases samples.len(),
{
    if samples.len() > 0 {
        lemma_sample_bytes_len(samples.drop_last());
    }
}

/// The size fields of the header carry the true byte counts: the file holds
/// two bytes per sample after its 44-byte header, the data chunk's size
/// field is the file's length less the header, the RIFF size field is the
/// file's length less its first eight bytes, and the rate fields carry the
/// sample rate and twice it.
pub proof fn lemma_wav_sizes(samples: Seq<i16>, sample_rate: u32)
    requires
        samples.len() <= MAX_WAV_SAMPLES,
        sample_rate <= 0x7fff_ffff,
    ensures
        ({
            let wav = wav_file(samples, sample_rate);
            &&& wav.len() == 44 + 2 * samples.len()
            &&& le_u32_at(wav, 40) == wav.len() - 44
            &&& le_u32_at(wav, 4) == wav.len() - 8
            &&& le_u32_at(wav, 24) == sample_rate
            &&& le_u32_at(wav, 28) == 2 * sample_rate
            &&& wav.subrange(44, wav.len() as int) == sample_bytes(samples)
        }),
{
    let n = samples.len();
    let wav = wav_file(samples, sample_rate);
    let h = wav_header(n, sample_rate);
    lemma_sample_bytes_len(samples);
    let data = le32((2 * n) as u32);
    let riff = le32((36 + 2 * n) as u32);
    let rate = le32(sample_rate);
    let rate2 = le32((sample_rate * 2) as u32);
    assert(h =~= riff_tag() + riff + wave_tag() + fmt_tag() + le32(16) + le16(1) + le16(1) + rate
        + rate2 + le16(2) + le16(16) + data_tag() + data);
    assert(h.len() == 44);
    assert(h.subrange(40, 44) =~= data);
    assert(h.subrange(4, 8) =~= riff);
    assert(h.subrange(24, 28) =~= rate);
    assert(h.subrange(28, 32) =~= rate2);
    lemma_le32_decodes((2 * n) as u32);
    lemma_le32_decodes((36 + 2 * n) as u32);
    lemma_le32_decodes(sample_rate);
    lemma_le32_decodes((sample_rate * 2) as u32);
    assert(le_u32_at(wav, 40) == le_u32_at(data, 0)) by {
        assert(wav[40] == h[40] && h[40] == h.subrange(40, 44)[0]);
        assert(wav[41] == h[41] && h[41] == h.subrange(40, 44)[1]);
        assert(wav[42] == h[42] && h[42] == h.subrange(40, 44)[2]);
        assert(wav[43] == h[43] && h[43] == h.subrange(40, 44)[3]);
    }
    assert(le_u32_at(wav, 4) == le_u32_at(riff, 0)) by {
        assert(wav[4] == h[4] && h[4] == h.subrange(4, 8)[0]);
        assert(wav[5] == h[5] && h[5] == h.subrange(4, 8)[1]);
        assert(wav[6] == h[6] && h[6] == h.subrange(4, 8)[2]);
        assert(wav[7] == h[7] && h[7] == h.subrange(4, 8)[3]);
    }
    assert(le_u32_at(wav, 24) == le_u32_at(rate, 0)) by {
        assert(wav[24] == h[24] && h[24] == h.subrange(24, 28)[0]);
        assert(wav[25] == h[25] && h[25] == h.subrange(24, 28)[1]);
        assert(wav[26] == h[26] && h[26] == h.subrange(24, 28)[2]);
        assert(wav[27] == h[27] && h[27] == h.subrange(24, 28)[3]);
    }
    assert(le_u32_at(wav, 28) == le_u32_at(rate2, 0)) by {
        assert(wav[28] == h[28] && h[28] == h.subrange(28, 32)[0]);
        assert(wav[29] == h[29] && h[29] == h.subrange(28, 32)[1]);
        assert(wav[30] == h[30] && h[30] == h.subrange(28, 32)[2]);
        assert(wav[31] == h[31] && h[31] == h.subrange(28, 32)[3]);
    }
    assert(wav.subrange(44, wav.len() as int) =~= sample_bytes(samples));
}

} // verus!
