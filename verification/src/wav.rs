//! A recording as a WAV file: 16-bit PCM, one channel.

use vstd::prelude::*;

verus! {

/// `n` in two bytes, the low one first.
pub open spec fn u16_le(n: u16) -> Seq<u8> {
    seq![(n % 256) as u8, (n / 256) as u8]
}

/// `n` in four bytes, the low one first.
pub open spec fn u32_le(n: u32) -> Seq<u8> {
    seq![
        (n % 256) as u8,
        (n / 256 % 256) as u8,
        (n / 65536 % 256) as u8,
        (n / 16777216) as u8,
    ]
}

/// The two's complement of a sample, as a number without a sign.
pub open spec fn sample_bits(s: i16) -> u16 {
    if s >= 0 {
        s as u16
    } else {
        (s + 65536) as u16
    }
}

/// The samples in two bytes each, one after the other.
pub open spec fn pcm_bytes(pcm: Seq<i16>) -> Seq<u8> {
    Seq::new(2 * pcm.len(), |i: int| u16_le(sample_bits(pcm[i / 2]))[i % 2])
}

/// The length of the samples in bytes, as the file's 32-bit field shows it.
pub open spec fn data_len(pcm: Seq<i16>) -> u32 {
    ((2 * pcm.len()) % 0x1_0000_0000) as u32
}

/// The 44 bytes in front of the samples.
pub open spec fn wav_header(data_len: u32, sample_rate: u32) -> Seq<u8> {
    // "RIFF", the length of what follows, "WAVE"
    seq![0x52u8, 0x49, 0x46, 0x46] + u32_le((36 + data_len) as u32) + seq![0x57u8, 0x41, 0x56, 0x45]
    // "fmt ", the length of that part, plain PCM, one channel
     + seq![0x66u8, 0x6d, 0x74, 0x20] + u32_le(16) + u16_le(1) + u16_le(1)
    // samples and bytes per second, bytes and bits per sample
     + u32_le(sample_rate) + u32_le((2 * sample_rate) as u32) + u16_le(2) + u16_le(16)
    // "data", its length
     + seq![0x64u8, 0x61, 0x74, 0x61] + u32_le(data_len)
}

/// The whole file.
pub open spec fn wav_of(pcm: Seq<i16>, sample_rate: u32) -> Seq<u8> {
    wav_header(data_len(pcm), sample_rate) + pcm_bytes(pcm)
}

fn push_u16(out: &mut Vec<u8>, n: u16)
    ensures
        final(out)@ == old(out)@ + u16_le(n),
{
    let ghost before = out@;
    out.push((n % 256) as u8);
    out.push((n / 256) as u8);
    assert(out@ =~= before + u16_le(n));
}

fn push_u32(out: &mut Vec<u8>, n: u32)
    ensures
        final(out)@ == old(out)@ + u32_le(n),
{
    let ghost before = out@;
    out.push((n % 256) as u8);
    out.push((n / 256 % 256) as u8);
    out.push((n / 65536 % 256) as u8);
    out.push((n / 16777216) as u8);
    assert(out@ =~= before + u32_le(n));
}

fn push_tag(out: &mut Vec<u8>, a: u8, b: u8, c: u8, d: u8)
    ensures
        final(out)@ == old(out)@ + seq![a, b, c, d],
{
    let ghost before = out@;
    out.push(a);
    out.push(b);
    out.push(c);
    out.push(d);
    assert(out@ =~= before + seq![a, b, c, d]);
}

/// The recording as a WAV file.
pub fn pcm_to_wav(pcm: &[i16], sample_rate: u32) -> (r: Vec<u8>)
    requires
        2 * pcm@.len() <= usize::MAX,
        36 + data_len(pcm@) <= u32::MAX,
        2 * sample_rate <= u32::MAX,
    ensures
        r@ == wav_of(pcm@, sample_rate),
{
    let data_len: u32 = (pcm.len() as u64 * 2 % 0x1_0000_0000) as u32;
    let mut out: Vec<u8> = Vec::new();
    push_tag(&mut out, 0x52, 0x49, 0x46, 0x46);
    push_u32(&mut out, 36 + data_len);
    push_tag(&mut out, 0x57, 0x41, 0x56, 0x45);
    push_tag(&mut out, 0x66, 0x6d, 0x74, 0x20);
    push_u32(&mut out, 16);
    push_u16(&mut out, 1);
    push_u16(&mut out, 1);
    push_u32(&mut out, sample_rate);
    push_u32(&mut out, 2 * sample_rate);
    push_u16(&mut out, 2);
    push_u16(&mut out, 16);
    push_tag(&mut out, 0x64, 0x61, 0x74, 0x61);
    push_u32(&mut out, data_len);
    let ghost header = wav_header(data_len, sample_rate);
    assert(out@ =~= header + pcm_bytes(pcm@.take(0)));
    for i in 0..pcm.len()
        invariant
            out@ == header + pcm_bytes(pcm@.take(i as int)),
    {
        let s: i16 = pcm[i];
        let bits: u16 = if s >= 0 {
            s as u16
        } else {
            (s as i32 + 65536) as u16
        };
        push_u16(&mut out, bits);
        proof {
            lemma_pcm_bytes_step(pcm@, i as int);
        }
        assert(out@ =~= header + pcm_bytes(pcm@.take(i + 1)));
    }
    assert(pcm@.take(pcm@.len() as int) =~= pcm@);
    out
}

/// One more sample adds its two bytes.
proof fn lemma_pcm_bytes_step(pcm: Seq<i16>, i: int)
    requires
        0 <= i < pcm.len(),
    ensures
        pcm_bytes(pcm.take(i + 1)) == pcm_bytes(pcm.take(i)) + u16_le(sample_bits(pcm[i])),
{
    let longer = pcm_bytes(pcm.take(i + 1));
    let shorter = pcm_bytes(pcm.take(i)) + u16_le(sample_bits(pcm[i]));
    assert forall|k: int| 0 <= k < longer.len() implies #[trigger] longer[k] == shorter[k] by {
        if k < 2 * i {
            assert(pcm.take(i + 1)[k / 2] == pcm.take(i)[k / 2]);
        } else {
            assert(k / 2 == i);
            assert(k % 2 == k - 2 * i);
        }
    }
    assert(longer =~= shorter);
}

/// The sample behind two bytes.
pub open spec fn sample_of(low: u8, high: u8) -> i16 {
    let bits = low + 256 * high;
    if bits < 32768 {
        bits as i16
    } else {
        (bits - 65536) as i16
    }
}

/// The samples in a file with a header of 44 bytes.
pub open spec fn samples_in(wav: Seq<u8>) -> Seq<i16> {
    Seq::new(
        ((wav.len() - 44) / 2) as nat,
        |i: int| sample_of(wav[44 + 2 * i], wav[45 + 2 * i]),
    )
}

/// The number in four bytes at a place of a file.
pub open spec fn u32_at(wav: Seq<u8>, at: int) -> int {
    wav[at] + 256 * wav[at + 1] + 65536 * wav[at + 2] + 16777216 * wav[at + 3]
}

/// Reading the samples of the file gives back the recording.
pub proof fn law_wav_keeps_every_sample(pcm: Seq<i16>, sample_rate: u32)
    ensures
        samples_in(wav_of(pcm, sample_rate)) == pcm,
{
    let header = wav_header(data_len(pcm), sample_rate);
    let wav = wav_of(pcm, sample_rate);
    assert(header.len() == 44);
    assert forall|i: int| 0 <= i < pcm.len() implies #[trigger] samples_in(wav)[i] == pcm[i] by {
        let bits = sample_bits(pcm[i]);
        assert(wav[44 + 2 * i] == pcm_bytes(pcm)[2 * i]);
        assert(wav[45 + 2 * i] == pcm_bytes(pcm)[2 * i + 1]);
        assert((2 * i) / 2 == i && (2 * i) % 2 == 0);
        assert((2 * i + 1) / 2 == i && (2 * i + 1) % 2 == 1);
        assert(wav[44 + 2 * i] == (bits % 256) as u8);
        assert(wav[45 + 2 * i] == (bits / 256) as u8);
    }
    assert(samples_in(wav) =~= pcm);
}

/// The file is as long as its header says: the samples fill what is behind
/// the header, and everything behind the first field of length is counted by
/// it.
pub proof fn law_wav_lengths_agree(pcm: Seq<i16>, sample_rate: u32)
    requires
        36 + 2 * pcm.len() <= u32::MAX,
    ensures
        wav_of(pcm, sample_rate).len() == 44 + 2 * pcm.len(),
        u32_at(wav_of(pcm, sample_rate), 4) == wav_of(pcm, sample_rate).len() - 8,
        u32_at(wav_of(pcm, sample_rate), 24) == sample_rate,
        u32_at(wav_of(pcm, sample_rate), 40) == 2 * pcm.len(),
{
    let d = data_len(pcm);
    let header = wav_header(d, sample_rate);
    let wav = wav_of(pcm, sample_rate);
    assert(d == 2 * pcm.len());
    lemma_header_fields(d, sample_rate);
    assert(forall|i: int| 0 <= i < 44 ==> #[trigger] wav[i] == header[i]);
    lemma_u32_le((36 + d) as u32);
    lemma_u32_le(sample_rate);
    lemma_u32_le(d);
}

/// Where the lengths and the sample rate stand in the header.
proof fn lemma_header_fields(d: u32, sample_rate: u32)
    ensures
        wav_header(d, sample_rate).len() == 44,
        u32_at(wav_header(d, sample_rate), 4) == u32_at(u32_le((36 + d) as u32), 0),
        u32_at(wav_header(d, sample_rate), 24) == u32_at(u32_le(sample_rate), 0),
        u32_at(wav_header(d, sample_rate), 40) == u32_at(u32_le(d), 0),
{
}

/// Four bytes hold their number.
proof fn lemma_u32_le(n: u32)
    ensures
        u32_at(u32_le(n), 0) == n,
{
}

/// The file says what it is, byte by byte, for every recording and rate:
/// `RIFF`, `WAVE` and `fmt ` with 16 bytes behind it, plain PCM, one channel,
/// the rate, two bytes for each moment and so twice the rate in bytes per
/// second, 16 bits per sample, and `data`.
pub proof fn law_wav_says_what_it_is(pcm: Seq<i16>, sample_rate: u32)
    requires
        2 * sample_rate <= u32::MAX,
    ensures
        ({
            let wav = wav_of(pcm, sample_rate);
            &&& wav.len() == 44 + 2 * pcm.len()
            &&& wav[0] == 0x52 && wav[1] == 0x49 && wav[2] == 0x46 && wav[3] == 0x46
            &&& wav[8] == 0x57 && wav[9] == 0x41 && wav[10] == 0x56 && wav[11] == 0x45
            &&& wav[12] == 0x66 && wav[13] == 0x6d && wav[14] == 0x74 && wav[15] == 0x20
            &&& wav[16] == 16 && wav[17] == 0 && wav[18] == 0 && wav[19] == 0
            &&& wav[20] == 1 && wav[21] == 0
            &&& wav[22] == 1 && wav[23] == 0
            &&& wav[24] + 256 * wav[25] + 65536 * wav[26] + 16777216 * wav[27] == sample_rate
            &&& wav[28] + 256 * wav[29] + 65536 * wav[30] + 16777216 * wav[31] == 2 * sample_rate
            &&& wav[32] == 2 && wav[33] == 0
            &&& wav[34] == 16 && wav[35] == 0
            &&& wav[36] == 0x64 && wav[37] == 0x61 && wav[38] == 0x74 && wav[39] == 0x61
        }),
{
    let d = data_len(pcm);
    let header = wav_header(d, sample_rate);
    let wav = wav_of(pcm, sample_rate);
    lemma_header_fields(d, sample_rate);
    lemma_u32_le(sample_rate);
    lemma_u32_le((2 * sample_rate) as u32);
    assert(forall|i: int| 0 <= i < 44 ==> #[trigger] wav[i] == header[i]);
    lemma_header_bytes(d, sample_rate);
}

/// The lengths that the file tells are its own: that of everything behind the
/// first of them, and that of the samples. A length that does not fit 32 bits
/// is told by its low 32 bits.
pub proof fn law_wav_tells_its_lengths(pcm: Seq<i16>, sample_rate: u32)
    requires
        36 + (2 * pcm.len()) % 0x1_0000_0000 <= u32::MAX,
    ensures
        ({
            let wav = wav_of(pcm, sample_rate);
            let told = wav[4] + 256 * wav[5] + 65536 * wav[6] + 16777216 * wav[7];
            let samples = wav[40] + 256 * wav[41] + 65536 * wav[42] + 16777216 * wav[43];
            &&& samples == (2 * pcm.len()) % 0x1_0000_0000
            &&& told == 36 + samples
            &&& 36 + 2 * pcm.len() <= u32::MAX ==> samples == 2 * pcm.len() && told == wav.len()
                - 8
        }),
{
    let d = data_len(pcm);
    lemma_lengths_told(d, sample_rate, pcm_bytes(pcm));
}

proof fn lemma_lengths_told(d: u32, sample_rate: u32, samples: Seq<u8>)
    requires
        36 + d <= u32::MAX,
    ensures
        u32_at(wav_header(d, sample_rate) + samples, 4) == 36 + d,
        u32_at(wav_header(d, sample_rate) + samples, 40) == d,
        wav_header(d, sample_rate).len() == 44,
{
    let header = wav_header(d, sample_rate);
    lemma_header_fields(d, sample_rate);
    lemma_u32_le((36 + d) as u32);
    lemma_u32_le(d);
    lemma_field_in_file(header, samples, 4);
    lemma_field_in_file(header, samples, 40);
}

/// A field of the header is found at the same place of the file.
proof fn lemma_field_in_file(header: Seq<u8>, samples: Seq<u8>, at: int)
    requires
        0 <= at,
        at + 4 <= header.len(),
    ensures
        u32_at(header + samples, at) == u32_at(header, at),
{
}

/// Every sample stands in the file at its place, in two's complement with the
/// low byte first.
pub proof fn law_every_sample_is_at_its_place(pcm: Seq<i16>, sample_rate: u32, i: int)
    requires
        0 <= i < pcm.len(),
    ensures
        ({
            let wav = wav_of(pcm, sample_rate);
            wav[44 + 2 * i] + 256 * wav[45 + 2 * i] == if pcm[i] >= 0 {
                pcm[i] as int
            } else {
                65536 + pcm[i]
            }
        }),
{
    let wav = wav_of(pcm, sample_rate);
    assert(wav_header(data_len(pcm), sample_rate).len() == 44);
    assert(wav[44 + 2 * i] == pcm_bytes(pcm)[2 * i]);
    assert(wav[45 + 2 * i] == pcm_bytes(pcm)[2 * i + 1]);
    assert((2 * i) / 2 == i && (2 * i) % 2 == 0);
    assert((2 * i + 1) / 2 == i && (2 * i + 1) % 2 == 1);
}

/// The bytes of the header that are the same for every recording, and the
/// places of the rates.
proof fn lemma_header_bytes(d: u32, sample_rate: u32)
    ensures
        ({
            let h = wav_header(d, sample_rate);
            &&& h.subrange(0, 4) == seq![0x52u8, 0x49, 0x46, 0x46]
            &&& h.subrange(8, 16) == seq![0x57u8, 0x41, 0x56, 0x45, 0x66, 0x6d, 0x74, 0x20]
            &&& h.subrange(16, 24) == seq![16u8, 0, 0, 0, 1, 0, 1, 0]
            &&& h.subrange(28, 32) == u32_le((2 * sample_rate) as u32)
            &&& h.subrange(32, 36) == seq![2u8, 0, 16, 0]
            &&& h.subrange(36, 40) == seq![0x64u8, 0x61, 0x74, 0x61]
        }),
{
}

} // verus!
