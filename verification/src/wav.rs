//! The mono 16-bit linear PCM container: a 44-byte header followed by the
//! samples in little-endian order.

use vstd::prelude::*;
use crate::error::PipelineError;

verus! {

/// Number of bytes before the first sample.
pub const HEADER_LEN: usize = 44;

/// Channel count declared by every container.
pub const CHANNELS: u16 = 1;

/// Bit depth declared by every container.
pub const BITS_PER_SAMPLE: u16 = 16;

/// The `k`-th byte, counted from the least significant, of `v`.
pub open spec fn byte_of(v: int, k: int) -> u8 {
    if k == 0 {
        (v % 256) as u8
    } else if k == 1 {
        ((v / 256) % 256) as u8
    } else if k == 2 {
        ((v / 65536) % 256) as u8
    } else {
        ((v / 16777216) % 256) as u8
    }
}

/// Two bytes, least significant first.
pub open spec fn le16(v: int) -> Seq<u8> {
    seq![byte_of(v, 0), byte_of(v, 1)]
}

/// Four bytes, least significant first.
pub open spec fn le32(v: int) -> Seq<u8> {
    seq![byte_of(v, 0), byte_of(v, 1), byte_of(v, 2), byte_of(v, 3)]
}

/// The number that four little-endian bytes stand for.
pub open spec fn from_le32(b0: u8, b1: u8, b2: u8, b3: u8) -> int {
    b0 + 256 * b1 + 65536 * b2 + 16777216 * b3
}

/// A sample as the unsigned 16-bit number with the same two's complement bits.
pub open spec fn unsigned_of(s: i16) -> int {
    if s >= 0 {
        s as int
    } else {
        s + 65536
    }
}

/// The sample whose two's complement bits are `b0` (low) and `b1` (high).
pub open spec fn sample_from(b0: u8, b1: u8) -> i16 {
    let u = b0 + 256 * b1;
    if u < 32768 {
        u as i16
    } else {
        (u - 65536) as i16
    }
}

/// Whether `n` samples at `rate` Hz can be described by the 32-bit header fields.
pub open spec fn fits(n: int, rate: u32) -> bool {
    36 + 2 * n <= u32::MAX && 2 * rate <= u32::MAX
}

/// The 44 header bytes of a container holding `n` samples at `rate` Hz.
pub open spec fn header(n: int, rate: u32) -> Seq<u8> {
    seq![0x52u8, 0x49u8, 0x46u8, 0x46u8] + le32(36 + 2 * n) + seq![
        0x57u8,
        0x41u8,
        0x56u8,
        0x45u8,
    ] + seq![0x66u8, 0x6du8, 0x74u8, 0x20u8] + le32(16) + le16(1) + le16(CHANNELS as int) + le32(
        rate as int,
    ) + le32(2 * rate) + le16(2) + le16(BITS_PER_SAMPLE as int) + seq![
        0x64u8,
        0x61u8,
        0x74u8,
        0x61u8,
    ] + le32(2 * n)
}

/// The data block: each sample as two little-endian bytes, in order.
pub open spec fn payload(samples: Seq<i16>) -> Seq<u8> {
    Seq::new(2 * samples.len(), |i: int| byte_of(unsigned_of(samples[i / 2]), i % 2))
}

/// The whole container for `samples` at `rate` Hz.
pub open spec fn wav_bytes(samples: Seq<i16>, rate: u32) -> Seq<u8> {
    header(samples.len() as int, rate) + payload(samples)
}

/// The sample rate that the header of `bytes` declares.
pub open spec fn declared_rate(bytes: Seq<u8>) -> u32
    recommends
        bytes.len() >= 44,
{
    from_le32(bytes[24], bytes[25], bytes[26], bytes[27]) as u32
}

/// The channel count that the header of `bytes` declares.
pub open spec fn declared_channels(bytes: Seq<u8>) -> int
    recommends
        bytes.len() >= 44,
{
    bytes[22] + 256 * bytes[23]
}

/// The bit depth that the header of `bytes` declares.
pub open spec fn declared_bits(bytes: Seq<u8>) -> int
    recommends
        bytes.len() >= 44,
{
    bytes[34] + 256 * bytes[35]
}

/// The number of samples that follow the header of `bytes`.
pub open spec fn sample_count(bytes: Seq<u8>) -> int
    recommends
        bytes.len() >= 44,
{
    (bytes.len() - 44) / 2
}

/// The samples that follow the header of `bytes`.
pub open spec fn decoded_samples(bytes: Seq<u8>) -> Seq<i16>
    recommends
        bytes.len() >= 44,
{
    Seq::new(sample_count(bytes) as nat, |i: int| sample_from(bytes[44 + 2 * i], bytes[44 + 2 * i + 1]))
}

/// Whether `bytes` is a container as this module writes it: a whole number
/// of samples after a header that describes exactly them.
pub open spec fn is_container(bytes: Seq<u8>) -> bool {
    &&& bytes.len() >= 44
    &&& (bytes.len() - 44) % 2 == 0
    &&& fits(sample_count(bytes), declared_rate(bytes))
    &&& bytes.subrange(0, 44) == header(sample_count(bytes), declared_rate(bytes))
}

/// Largest sample count whose byte length the header can hold.
pub const MAX_SAMPLES: usize = 2_147_483_629;

/// Largest sample rate whose byte rate the header can hold.
pub const MAX_SAMPLE_RATE: u32 = 2_147_483_647;

fn push_le16(out: &mut Vec<u8>, v: u16)
    ensures
        final(out)@ == old(out)@ + le16(v as int),
{
    out.push((v % 256) as u8);
    out.push(((v / 256) % 256) as u8);
    assert(out@ =~= old(out)@ + le16(v as int));
}

fn push_le32(out: &mut Vec<u8>, v: u32)
    ensures
        final(out)@ == old(out)@ + le32(v as int),
{
    out.push((v % 256) as u8);
    out.push(((v / 256) % 256) as u8);
    out.push(((v / 65536) % 256) as u8);
    out.push(((v / 16777216) % 256) as u8);
    assert(out@ =~= old(out)@ + le32(v as int));
}

fn push_tag(out: &mut Vec<u8>, a: u8, b: u8, c: u8, d: u8)
    ensures
        final(out)@ == old(out)@ + seq![a, b, c, d],
{
    out.push(a);
    out.push(b);
    out.push(c);
    out.push(d);
    assert(out@ =~= old(out)@ + seq![a, b, c, d]);
}

/// The header of a container with `n` samples at `rate` Hz.
fn header_bytes(n: u32, rate: u32) -> (out: Vec<u8>)
    requires
        fits(n as int, rate),
    ensures
        out@ == header(n as int, rate),
        out@.len() == 44,
{
    let mut out: Vec<u8> = Vec::new();
    push_tag(&mut out, 0x52, 0x49, 0x46, 0x46);
    push_le32(&mut out, 36 + 2 * n);
    push_tag(&mut out, 0x57, 0x41, 0x56, 0x45);
    push_tag(&mut out, 0x66, 0x6d, 0x74, 0x20);
    push_le32(&mut out, 16);
    push_le16(&mut out, 1);
    push_le16(&mut out, CHANNELS);
    push_le32(&mut out, rate);
    push_le32(&mut out, 2 * rate);
    push_le16(&mut out, 2);
    push_le16(&mut out, BITS_PER_SAMPLE);
    push_tag(&mut out, 0x64, 0x61, 0x74, 0x61);
    push_le32(&mut out, 2 * n);
    out
}

/// A finished container.  Every value of this type holds a well-formed
/// container: a header that describes exactly the samples behind it.
pub struct WavFile {
    bytes: Vec<u8>,
}

impl View for WavFile {
    type V = Seq<u8>;

    closed spec fn view(&self) -> Seq<u8> {
        self.bytes@
    }
}

impl WavFile {
    #[verifier::type_invariant]
    spec fn well_formed(&self) -> bool {
        is_container(self.bytes@)
    }

    /// Serialises `samples` as a mono 16-bit container at `sample_rate` Hz.
    ///
    /// Succeeds for every buffer, the empty one included, whose size and
    /// rate the 32-bit header fields can hold, and fails with `AudioEncode`
    /// for every other.
    pub fn encode(samples: &Vec<i16>, sample_rate: u32) -> (r: Result<WavFile, PipelineError>)
        ensures
            r is Ok <==> fits(samples@.len() as int, sample_rate),
            r matches Ok(w) ==> w@ == wav_bytes(samples@, sample_rate) && is_container(w@),
            r matches Err(e) ==> e == PipelineError::AudioEncode,
    {
        if samples.len() > MAX_SAMPLES || sample_rate > MAX_SAMPLE_RATE {
            return Err(PipelineError::AudioEncode);
        }
        let n: usize = samples.len();
        let mut out = header_bytes(n as u32, sample_rate);
        let mut i: usize = 0;
        while i < n
            invariant
                i <= n,
                n == samples@.len(),
                out@.len() == 44 + 2 * i,
                out@.subrange(0, 44) == header(n as int, sample_rate),
                forall|j: int|
                    0 <= j < 2 * i ==> #[trigger] out@[44 + j] == byte_of(
                        unsigned_of(samples@[j / 2]),
                        j % 2,
                    ),
            decreases n - i,
        {
            let s: i16 = samples[i];
            let u: u16 = if s >= 0 {
                s as u16
            } else {
                (s as i32 + 65536) as u16
            };
            assert(u == unsigned_of(s));
            let ghost before = out@;
            out.push((u % 256) as u8);
            out.push(((u / 256) % 256) as u8);
            assert(out@.subrange(0, 44) =~= before.subrange(0, 44));
            assert forall|j: int| 0 <= j < 2 * (i + 1) implies #[trigger] out@[44 + j] == byte_of(
                unsigned_of(samples@[j / 2]),
                j % 2,
            ) by {
                if j < 2 * i {
                    assert(out@[44 + j] == before[44 + j]);
                } else if j == 2 * i {
                    assert(j / 2 == i && j % 2 == 0);
                } else {
                    assert(j / 2 == i && j % 2 == 1);
                }
            }
            i = i + 1;
        }
        proof {
            let w = wav_bytes(samples@, sample_rate);
            assert(header(n as int, sample_rate).len() == 44);
            assert(w.len() == out@.len());
            assert forall|k: int| 0 <= k < out@.len() implies out@[k] == w[k] by {
                if k < 44 {
                    assert(out@.subrange(0, 44)[k] == out@[k]);
                } else {
                    let j = k - 44;
                    assert(out@[44 + j] == byte_of(unsigned_of(samples@[j / 2]), j % 2));
                    assert(w[k] == payload(samples@)[j]);
                }
            }
            assert(out@ =~= w);
            lemma_round_trip(samples@, sample_rate);
        }
        Ok(WavFile { bytes: out })
    }

    /// Accepts `bytes` exactly when they are a well-formed container, and
    /// then holds them unchanged.
    pub fn parse(bytes: Vec<u8>) -> (r: Option<WavFile>)
        ensures
            r is Some <==> is_container(bytes@),
            r matches Some(w) ==> w@ == bytes@,
    {
        let len: usize = bytes.len();
        if len < HEADER_LEN || (len - HEADER_LEN) % 2 != 0 {
            return None;
        }
        let n: usize = (len - HEADER_LEN) / 2;
        let rate: u32 = read_le32(&bytes, 24);
        if n > MAX_SAMPLES || rate > MAX_SAMPLE_RATE {
            return None;
        }
        let expected = header_bytes(n as u32, rate);
        let mut k: usize = 0;
        while k < HEADER_LEN
            invariant
                k <= 44,
                bytes@.len() >= 44,
                expected@.len() == 44,
                expected@ == header(sample_count(bytes@), declared_rate(bytes@)),
                forall|j: int| 0 <= j < k ==> bytes@[j] == expected@[j],
            decreases 44 - k,
        {
            if bytes[k] != expected[k] {
                proof {
                    assert(bytes@.subrange(0, 44)[k as int] == bytes@[k as int]);
                    assert(bytes@.subrange(0, 44) != expected@);
                }
                return None;
            }
            k = k + 1;
        }
        assert(bytes@.subrange(0, 44) =~= expected@);
        Some(WavFile { bytes })
    }

    /// The bytes of the container.
    pub fn as_bytes(&self) -> (bytes: &Vec<u8>)
        ensures
            bytes@ == self@,
            is_container(self@),
    {
        proof {
            use_type_invariant(self);
        }
        &self.bytes
    }

    /// Gives up the container for its bytes.
    pub fn into_bytes(self) -> (bytes: Vec<u8>)
        ensures
            bytes@ == self@,
            is_container(self@),
    {
        proof {
            use_type_invariant(&self);
        }
        self.bytes
    }

    /// Total length in bytes: the header and two bytes per sample.
    pub fn len(&self) -> (n: usize)
        ensures
            n == self@.len(),
            n == 44 + 2 * sample_count(self@),
    {
        proof {
            use_type_invariant(self);
        }
        self.bytes.len()
    }

    /// The sample rate declared in the header.
    pub fn sample_rate(&self) -> (rate: u32)
        ensures
            rate == declared_rate(self@),
    {
        proof {
            use_type_invariant(self);
        }
        read_le32(&self.bytes, 24)
    }

    /// The number of samples in the data block.
    pub fn sample_count(&self) -> (n: usize)
        ensures
            n == sample_count(self@),
    {
        proof {
            use_type_invariant(self);
        }
        (self.bytes.len() - HEADER_LEN) / 2
    }

    /// The samples of the data block, in order.
    pub fn samples(&self) -> (samples: Vec<i16>)
        ensures
            samples@ == decoded_samples(self@),
            self@ == wav_bytes(samples@, declared_rate(self@)),
    {
        proof {
            use_type_invariant(self);
            lemma_container_is_canonical(self.bytes@);
        }
        let len: usize = self.bytes.len();
        let n: usize = (len - HEADER_LEN) / 2;
        let mut samples: Vec<i16> = Vec::new();
        let mut i: usize = 0;
        while i < n
            invariant
                i <= n,
                n == sample_count(self.bytes@),
                len == self.bytes@.len(),
                len == 44 + 2 * n,
                samples@.len() == i,
                forall|j: int|
                    0 <= j < i ==> #[trigger] samples@[j] == sample_from(
                        self.bytes@[44 + 2 * j],
                        self.bytes@[44 + 2 * j + 1],
                    ),
            decreases n - i,
        {
            let b0: u8 = self.bytes[HEADER_LEN + 2 * i];
            let b1: u8 = self.bytes[HEADER_LEN + 2 * i + 1];
            let u: u16 = b0 as u16 + 256 * (b1 as u16);
            let s: i16 = if u < 32768 {
                u as i16
            } else {
                (u as i32 - 65536) as i16
            };
            samples.push(s);
            i = i + 1;
        }
        assert(samples@ =~= decoded_samples(self.bytes@));
        samples
    }
}

/// The 32-bit little-endian number at `at`.
fn read_le32(bytes: &Vec<u8>, at: usize) -> (v: u32)
    requires
        at + 4 <= bytes.len(),
    ensures
        v == from_le32(
            bytes@[at as int],
            bytes@[at + 1],
            bytes@[at + 2],
            bytes@[at + 3],
        ),
{
    let b0: u32 = bytes[at] as u32;
    let b1: u32 = bytes[at + 1] as u32;
    let b2: u32 = bytes[at + 2] as u32;
    let b3: u32 = bytes[at + 3] as u32;
    b0 + 256 * b1 + 65536 * b2 + 16777216 * b3
}

/// Encoding is undone by decoding: the container written for `samples` at
/// `rate` Hz is well formed, declares `rate`, one channel and sixteen bits,
/// and holds exactly `samples`.
pub proof fn lemma_round_trip(samples: Seq<i16>, rate: u32)
    requires
        fits(samples.len() as int, rate),
    ensures
        is_container(wav_bytes(samples, rate)),
        wav_bytes(samples, rate).len() == 44 + 2 * samples.len(),
        declared_rate(wav_bytes(samples, rate)) == rate,
        declared_channels(wav_bytes(samples, rate)) == 1,
        declared_bits(wav_bytes(samples, rate)) == 16,
        sample_count(wav_bytes(samples, rate)) == samples.len(),
        decoded_samples(wav_bytes(samples, rate)) == samples,
{
    let n = samples.len() as int;
    let b = wav_bytes(samples, rate);
    let h = header(n, rate);
    assert(h.len() == 44);
    assert(b.len() == 44 + 2 * n);
    assert(b.subrange(0, 44) =~= h);
    assert(sample_count(b) == n);
    assert(b[24] == h[24] && b[25] == h[25] && b[26] == h[26] && b[27] == h[27]);
    assert(b[22] == h[22] && b[23] == h[23] && b[34] == h[34] && b[35] == h[35]);
    lemma_le32_inverse(rate as int);
    assert(h[24] == byte_of(rate as int, 0));
    assert(h[25] == byte_of(rate as int, 1));
    assert(h[26] == byte_of(rate as int, 2));
    assert(h[27] == byte_of(rate as int, 3));
    assert(declared_rate(b) == rate);
    assert forall|i: int| 0 <= i < n implies #[trigger] decoded_samples(b)[i] == samples[i] by {
        assert(b[44 + 2 * i] == payload(samples)[2 * i]);
        assert(b[44 + 2 * i + 1] == payload(samples)[2 * i + 1]);
        assert((2 * i) / 2 == i && (2 * i) % 2 == 0);
        assert((2 * i + 1) / 2 == i && (2 * i + 1) % 2 == 1);
        lemma_sample_inverse(samples[i]);
    }
    assert(decoded_samples(b) =~= samples);
}

/// Decoding is undone by encoding: a well-formed container is exactly what
/// is written for the samples and the rate it declares.
pub proof fn lemma_container_is_canonical(bytes: Seq<u8>)
    requires
        is_container(bytes),
    ensures
        bytes == wav_bytes(decoded_samples(bytes), declared_rate(bytes)),
        decoded_samples(bytes).len() == sample_count(bytes),
{
    let samples = decoded_samples(bytes);
    let rate = declared_rate(bytes);
    let n = sample_count(bytes);
    let w = wav_bytes(samples, rate);
    assert(header(n, rate).len() == 44);
    assert(bytes.len() == 44 + 2 * n);
    assert(w.len() == bytes.len());
    assert forall|j: int| 0 <= j < bytes.len() implies bytes[j] == w[j] by {
        if j < 44 {
            assert(bytes.subrange(0, 44)[j] == bytes[j]);
        } else {
            let k = j - 44;
            let i = k / 2;
            assert(w[j] == payload(samples)[k]);
            assert(samples[i] == sample_from(bytes[44 + 2 * i], bytes[44 + 2 * i + 1]));
            lemma_bytes_inverse(bytes[44 + 2 * i], bytes[44 + 2 * i + 1]);
            if k % 2 == 0 {
                assert(k == 2 * i);
            } else {
                assert(k == 2 * i + 1);
            }
        }
    }
    assert(bytes =~= w);
}

/// Four little-endian bytes of a 32-bit number give the number back.
pub proof fn lemma_le32_inverse(v: int)
    requires
        0 <= v <= u32::MAX,
    ensures
        from_le32(byte_of(v, 0), byte_of(v, 1), byte_of(v, 2), byte_of(v, 3)) == v,
{
}

/// The two bytes of a sample give the sample back.
pub proof fn lemma_sample_inverse(s: i16)
    ensures
        sample_from(byte_of(unsigned_of(s), 0), byte_of(unsigned_of(s), 1)) == s,
{
}

/// The sample read from two bytes is written as those two bytes.
pub proof fn lemma_bytes_inverse(b0: u8, b1: u8)
    ensures
        byte_of(unsigned_of(sample_from(b0, b1)), 0) == b0,
        byte_of(unsigned_of(sample_from(b0, b1)), 1) == b1,
{
}

} // verus!
