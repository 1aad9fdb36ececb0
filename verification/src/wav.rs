use vstd::prelude::*;

verus! {

/// Sample rate of the synthesised landing sounds, in samples per second.
pub const SAMPLE_RATE: u32 = 44100;

/// The two little-endian bytes of a 16-bit value.
pub open spec fn le16(x: u16) -> Seq<u8> {
    seq![(x % 256) as u8, (x / 256) as u8]
}

/// The four little-endian bytes of a 32-bit value.
pub open spec fn le32(x: u32) -> Seq<u8> {
    seq![(x % 256) as u8, ((x / 256) % 256) as u8, ((x / 65536) % 256) as u8, (x / 16777216) as u8]
}

/// The two's-complement bit pattern of a sample.
pub open spec fn sample_bits(s: i16) -> u16 {
    if s >= 0 { s as u16 } else { (s + 65536) as u16 }
}

/// The samples as consecutive little-endian 16-bit words.
pub open spec fn sample_bytes(samples: Seq<i16>) -> Seq<u8>
    decreases samples.len(),
{
    if samples.len() == 0 {
        Seq::empty()
    } else {
        sample_bytes(samples.drop_last()) + le16(sample_bits(samples.last()))
    }
}

/// The 44-byte header of a mono 16-bit PCM WAV file at `SAMPLE_RATE` holding `data_size`
/// bytes of samples: `RIFF`, the chunk size, `WAVE`, the `fmt ` chunk (16 bytes: PCM, one
/// channel, the rate, the byte rate, block align 2, 16 bits), then `data` and its size.
pub open spec fn wav_header(data_size: nat) -> Seq<u8> {
    seq![82u8, 73, 70, 70] + le32((36 + data_size) as u32) + seq![87u8, 65, 86, 69]
        + seq![102u8, 109, 116, 32] + le32(16) + le16(1) + le16(1) + le32(SAMPLE_RATE)
        + le32((SAMPLE_RATE * 2) as u32) + le16(2) + le16(16) + seq![100u8, 97, 116, 97]
        + le32(data_size as u32)
}

/// A complete WAV file for the samples.
pub open spec fn wav_file(samples: Seq<i16>) -> Seq<u8> {
    wav_header(2 * samples.len()) + sample_bytes(samples)
}

fn push_u16_le(b: &mut Vec<u8>, x: u16)
    ensures
        final(b)@ == old(b)@ + le16(x),
{
    b.push((x % 256) as u8);
    b.push((x / 256) as u8);
    assert(final(b)@ =~= old(b)@ + le16(x)) by {
        assert(b@ =~= old(b)@ + le16(x));
    }
}

fn push_u32_le(b: &mut Vec<u8>, x: u32)
    ensures
        final(b)@ == old(b)@ + le32(x),
{
    let ghost start = b@;
    b.push((x % 256) as u8);
    b.push(((x / 256) % 256) as u8);
    b.push(((x / 65536) % 256) as u8);
    b.push((x / 16777216) as u8);
    assert(b@ =~= start + le32(x));
}

fn push_tag(b: &mut Vec<u8>, t0: u8, t1: u8, t2: u8, t3: u8)
    ensures
        final(b)@ == old(b)@ + seq![t0, t1, t2, t3],
{
    let ghost start = b@;
    b.push(t0);
    b.push(t1);
    b.push(t2);
    b.push(t3);
    assert(b@ =~= start + seq![t0, t1, t2, t3]);
}

/// Wraps mono 16-bit samples into an in-memory WAV file (header, then the samples in
/// little-endian order).
pub fn build_wav(samples: &[i16]) -> (res: Vec<u8>)
    requires
        samples@.len() <= (usize::MAX - 44) / 2,
    ensures
        res@ == wav_file(samples@),
{
    let data_size = samples.len() * 2;
    let mut b: Vec<u8> = Vec::with_capacity(44 + data_size);
    push_tag(&mut b, 82, 73, 70, 70);
    push_u32_le(&mut b, (36 + data_size) as u32);
    push_tag(&mut b, 87, 65, 86, 69);
    push_tag(&mut b, 102, 109, 116, 32);
    push_u32_le(&mut b, 16);
    push_u16_le(&mut b, 1);
    push_u16_le(&mut b, 1);
    push_u32_le(&mut b, SAMPLE_RATE);
    push_u32_le(&mut b, SAMPLE_RATE * 2);
    push_u16_le(&mut b, 2);
    push_u16_le(&mut b, 16);
    push_tag(&mut b, 100, 97, 116, 97);
    push_u32_le(&mut b, data_size as u32);
    let ghost header = b@;
    assert(header =~= wav_header(2 * samples@.len()));
    let n = samples.len();
    let mut i: usize = 0;
    assert(samples@.take(0) =~= Seq::<i16>::empty());
    assert(b@ =~= header + sample_bytes(samples@.take(0)));
    while i < n
        invariant
            n == samples@.len(),
            i <= n,
            header == wav_header(2 * samples@.len()),
            b@ == header + sample_bytes(samples@.take(i as int)),
        decreases n - i,
    {
        let s = samples[i];
        let u: u16 = if s >= 0 { s as u16 } else { (s as i32 + 65536) as u16 };
        push_u16_le(&mut b, u);
        assert(samples@.take(i + 1).drop_last() =~= samples@.take(i as int));
        assert(b@ =~= header + sample_bytes(samples@.take(i + 1)));
        i = i + 1;
    }
    assert(samples@.take(n as int) =~= samples@);
    b
}

/// The signed sample stored in two little-endian bytes.
pub open spec fn decode_sample(lo: u8, hi: u8) -> int {
    let u = lo + 256 * hi;
    if u >= 32768 { u - 65536 } else { u }
}

proof fn lemma_sample_bytes_len(s: Seq<i16>)
    ensures
        sample_bytes(s).len() == 2 * s.len(),
    decreases s.len(),
{
    if s.len() > 0 {
        lemma_sample_bytes_len(s.drop_last());
    }
}

proof fn lemma_sample_bytes_at(s: Seq<i16>, i: int)
    requires
        0 <= i < s.len(),
    ensures
        sample_bytes(s)[2 * i] == le16(sample_bits(s[i]))[0],
        sample_bytes(s)[2 * i + 1] == le16(sample_bits(s[i]))[1],
    decreases s.len(),
{
    lemma_sample_bytes_len(s.drop_last());
    if i < s.len() - 1 {
        lemma_sample_bytes_at(s.drop_last(), i);
    }
}

/// A written WAV file is `44 + 2n` bytes long, its size fields hold the sizes, and reading
/// sample `i` back from its bytes gives the sample that was written.
pub proof fn law_wav_round_trip(samples: Seq<i16>, i: int)
    requires
        0 <= i < samples.len(),
    ensures
        wav_file(samples).len() == 44 + 2 * samples.len(),
        wav_file(samples).subrange(4, 8) == le32((36 + 2 * samples.len()) as u32),
        wav_file(samples).subrange(40, 44) == le32((2 * samples.len()) as u32),
        decode_sample(wav_file(samples)[44 + 2 * i], wav_file(samples)[45 + 2 * i]) == samples[i],
{
    lemma_sample_bytes_len(samples);
    lemma_sample_bytes_at(samples, i);
    let h = wav_header(2 * samples.len());
    assert(h.len() == 44);
    let f = wav_file(samples);
    assert(f.subrange(4, 8) =~= le32((36 + 2 * samples.len()) as u32));
    assert(f.subrange(40, 44) =~= le32((2 * samples.len()) as u32));
    assert(f[44 + 2 * i] == sample_bytes(samples)[2 * i]);
    assert(f[45 + 2 * i] == sample_bytes(samples)[2 * i + 1]);
    let u = sample_bits(samples[i]);
    assert((u % 256) + 256 * (u / 256) == u);
}

} // verus!
