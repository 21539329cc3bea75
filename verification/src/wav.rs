//! PCM audio files: 16-bit stereo at 48 kHz.

use vstd::prelude::*;

verus! {

/// Two bytes, the lower one first.
pub open spec fn le16(n: int) -> Seq<u8> {
    seq![(n % 256) as u8, (n / 256 % 256) as u8]
}

/// Four bytes, the lowest one first.
pub open spec fn le32(n: int) -> Seq<u8> {
    seq![
        (n % 256) as u8,
        (n / 256 % 256) as u8,
        (n / 65536 % 256) as u8,
        (n / 16777216 % 256) as u8,
    ]
}

/// A sample as the number that its two bytes hold.
pub open spec fn unsigned16(s: i16) -> int {
    if s < 0 {
        s + 65536
    } else {
        s as int
    }
}

/// The bytes of a row of samples.
pub open spec fn pcm_bytes(pcm: Seq<i16>) -> Seq<u8> {
    Seq::new(pcm.len() * 2, |i: int| le16(unsigned16(pcm[i / 2]))[i % 2])
}

/// The 44 bytes in front of `data` bytes of samples.
pub open spec fn wav_header(data: int) -> Seq<u8> {
    seq![0x52u8, 0x49u8, 0x46u8, 0x46u8] + le32(36 + data) + seq![0x57u8, 0x41u8, 0x56u8, 0x45u8]
        + seq![0x66u8, 0x6du8, 0x74u8, 0x20u8] + le32(16) + le16(1) + le16(2) + le32(48_000)
        + le32(192_000) + le16(4) + le16(16) + seq![0x64u8, 0x61u8, 0x74u8, 0x61u8] + le32(data)
}

/// The whole file.
pub open spec fn wav_file(pcm: Seq<i16>) -> Seq<u8> {
    wav_header(pcm.len() as int * 2) + pcm_bytes(pcm)
}

fn push4(out: &mut Vec<u8>, a: u8, b: u8, c: u8, d: u8)
    ensures
        final(out)@ == old(out)@ + seq![a, b, c, d],
{
    out.push(a);
    out.push(b);
    out.push(c);
    out.push(d);
    assert(out@ =~= old(out)@ + seq![a, b, c, d]);
}

fn push_le32(out: &mut Vec<u8>, n: u32)
    ensures
        final(out)@ == old(out)@ + le32(n as int),
{
    push4(
        out,
        (n % 256) as u8,
        (n / 256 % 256) as u8,
        (n / 65536 % 256) as u8,
        (n / 16777216 % 256) as u8,
    );
}

fn push_le16(out: &mut Vec<u8>, n: u32)
    requires
        n <= 0xffff,
    ensures
        final(out)@ == old(out)@ + le16(n as int),
{
    out.push((n % 256) as u8);
    out.push((n / 256 % 256) as u8);
    assert(out@ =~= old(out)@ + le16(n as int));
}

/// The bytes of a PCM file with these samples, left and right in turn.
pub fn write_wav(pcm: &[i16]) -> (r: Vec<u8>)
    requires
        36 + pcm@.len() * 2 <= u32::MAX,
    ensures
        r@ == wav_file(pcm@),
{
    let data: u32 = pcm.len() as u32 * 2;
    let mut out: Vec<u8> = Vec::new();
    push4(&mut out, 0x52, 0x49, 0x46, 0x46);
    push_le32(&mut out, 36 + data);
    push4(&mut out, 0x57, 0x41, 0x56, 0x45);
    push4(&mut out, 0x66, 0x6d, 0x74, 0x20);
    push_le32(&mut out, 16);
    push_le16(&mut out, 1);
    push_le16(&mut out, 2);
    push_le32(&mut out, 48_000);
    push_le32(&mut out, 192_000);
    push_le16(&mut out, 4);
    push_le16(&mut out, 16);
    push4(&mut out, 0x64, 0x61, 0x74, 0x61);
    push_le32(&mut out, data);
    assert(out@ =~= wav_header(data as int));
    for i in 0..pcm.len()
        invariant
            data == pcm@.len() * 2,
            out@ == wav_header(data as int) + pcm_bytes(pcm@).take(i * 2),
    {
        let s: i16 = pcm[i];
        let u: u32 = if s < 0 {
            (s as i32 + 65536) as u32
        } else {
            s as u32
        };
        let ghost before = out@;
        push_le16(&mut out, u);
        proof {
            let p = pcm_bytes(pcm@);
            assert(p[i * 2] == le16(u as int)[0]);
            assert(p[i * 2 + 1] == le16(u as int)[1]);
            assert(p.take((i + 1) * 2) =~= p.take(i * 2) + le16(u as int));
            assert(out@ =~= wav_header(data as int) + p.take((i + 1) * 2));
        }
    }
    assert(pcm_bytes(pcm@).take(pcm@.len() as int * 2) =~= pcm_bytes(pcm@));
    out
}

/// The sample that two bytes hold.
pub open spec fn sample_of(low: u8, high: u8) -> int {
    let u = low + 256 * high;
    if u >= 32768 {
        u - 65536
    } else {
        u
    }
}

/// A file is 44 bytes longer than its samples take, says so in its two length
/// fields, and every sample reads back as it was written.
pub proof fn law_wav_reads_back(pcm: Seq<i16>, i: int)
    requires
        0 <= i < pcm.len(),
        36 + pcm.len() as int * 2 <= u32::MAX,
    ensures
        wav_file(pcm).len() == 44 + pcm.len() as int * 2,
        wav_file(pcm).subrange(4, 8) == le32(wav_file(pcm).len() - 8),
        wav_file(pcm).subrange(40, 44) == le32(pcm.len() as int * 2),
        sample_of(wav_file(pcm)[44 + i * 2], wav_file(pcm)[44 + i * 2 + 1]) == pcm[i],
{
    let f = wav_file(pcm);
    let h = wav_header(pcm.len() as int * 2);
    assert(h.len() == 44);
    assert(f.subrange(4, 8) =~= le32(36 + pcm.len() as int * 2));
    assert(f.subrange(40, 44) =~= le32(pcm.len() as int * 2));
    let p = pcm_bytes(pcm);
    assert(f[44 + i * 2] == p[i * 2]);
    assert(f[44 + i * 2 + 1] == p[i * 2 + 1]);
    assert((i * 2) / 2 == i && (i * 2) % 2 == 0);
    assert((i * 2 + 1) / 2 == i && (i * 2 + 1) % 2 == 1);
}

/// The number that four bytes hold, the lowest one first.
pub open spec fn number_at(f: Seq<u8>, i: int) -> int {
    f[i] + 0x100 * f[i + 1] + 0x1_0000 * f[i + 2] + 0x100_0000 * f[i + 3]
}

/// The header says what the file holds: its length but for eight bytes, sixteen bytes
/// of format, plain samples, two channels, 48 000 frames and 192 000 bytes a second,
/// four bytes a frame, sixteen bits a sample, and the bytes of the samples.
pub proof fn law_header_describes_the_file(pcm: Seq<i16>)
    requires
        36 + pcm.len() as int * 2 <= u32::MAX,
    ensures
        ({
            let f = wav_file(pcm);
            &&& f.len() == 44 + pcm.len() * 2
            &&& f.take(4) == seq![0x52u8, 0x49u8, 0x46u8, 0x46u8]
            &&& number_at(f, 4) == f.len() - 8
            &&& f.subrange(8, 16) == seq![
                0x57u8,
                0x41u8,
                0x56u8,
                0x45u8,
                0x66u8,
                0x6du8,
                0x74u8,
                0x20u8,
            ]
            &&& number_at(f, 16) == 16
            &&& f[20] + 256 * f[21] == 1
            &&& f[22] + 256 * f[23] == 2
            &&& number_at(f, 24) == 48_000
            &&& number_at(f, 28) == 192_000
            &&& f[32] + 256 * f[33] == 4
            &&& f[34] + 256 * f[35] == 16
            &&& f.subrange(36, 40) == seq![0x64u8, 0x61u8, 0x74u8, 0x61u8]
            &&& number_at(f, 40) == pcm.len() * 2
        }),
{
    let f = wav_file(pcm);
    let data = pcm.len() as int * 2;
    let h = wav_header(data);
    assert(h.len() == 44);
    assert forall|i: int| 0 <= i < 44 implies f[i] == h[i] by {}
    assert(f.take(4) =~= seq![0x52u8, 0x49u8, 0x46u8, 0x46u8]);
    assert(f.subrange(8, 16) =~= seq![
        0x57u8,
        0x41u8,
        0x56u8,
        0x45u8,
        0x66u8,
        0x6du8,
        0x74u8,
        0x20u8,
    ]);
    assert(f.subrange(36, 40) =~= seq![0x64u8, 0x61u8, 0x74u8, 0x61u8]);
    lemma_le32(36 + data);
    lemma_le32(data);
    lemma_le32(16);
    lemma_le32(48_000);
    lemma_le32(192_000);
    assert(f.subrange(4, 8) =~= le32(36 + data));
    assert(f.subrange(16, 20) =~= le32(16));
    assert(f.subrange(24, 28) =~= le32(48_000));
    assert(f.subrange(28, 32) =~= le32(192_000));
    assert(f.subrange(40, 44) =~= le32(data));
    assert(number_at(f, 4) == number_at(f.subrange(4, 8), 0));
    assert(number_at(f, 16) == number_at(f.subrange(16, 20), 0));
    assert(number_at(f, 24) == number_at(f.subrange(24, 28), 0));
    assert(number_at(f, 28) == number_at(f.subrange(28, 32), 0));
    assert(number_at(f, 40) == number_at(f.subrange(40, 44), 0));
}

proof fn lemma_le32(n: int)
    requires
        0 <= n <= u32::MAX,
    ensures
        number_at(le32(n), 0) == n,
{
}

} // verus!
