//! The uncompressed WAV container for binary32 samples.
//!
//! A file is a header of 44 bytes followed by the samples, each as the four
//! bytes of its bit pattern, least significant byte first. All numbers of the
//! header are little-endian as well.

use vstd::prelude::*;

verus! {

/// The format tag of IEEE 754 floating-point samples.
pub const FORMAT_IEEE_FLOAT: u16 = 3;

/// The number of bytes of the header.
pub const HEADER_LEN: usize = 44;

/// The numbers that the header of a WAV file holds.
#[derive(Debug, Clone, Copy, PartialEq, Eq, Structural)]
pub struct WavHeader {
    /// Size of all that follows the first eight bytes of the file.
    pub riff_size: u32,
    /// Kind of the samples.
    pub format_tag: u16,
    /// Number of interleaved channels.
    pub channels: u16,
    /// Frames per second.
    pub sample_rate: u32,
    /// Bytes per second.
    pub byte_rate: u32,
    /// Bytes per frame.
    pub block_align: u16,
    /// Bits per sample.
    pub bits_per_sample: u16,
    /// Size of the samples in bytes.
    pub data_size: u32,
}

/// The two bytes of a 16-bit number, least significant first.
pub open spec fn le16(x: u16) -> Seq<u8> {
    seq![(x % 256) as u8, (x / 256) as u8]
}

/// The four bytes of a 32-bit number, least significant first.
pub open spec fn le32(x: u32) -> Seq<u8> {
    seq![
        (x % 256) as u8,
        (x / 0x100 % 256) as u8,
        (x / 0x1_0000 % 256) as u8,
        (x / 0x100_0000) as u8,
    ]
}

/// The 16-bit number whose two bytes stand at `at` in `bytes`.
pub open spec fn read_le16(bytes: Seq<u8>, at: int) -> int {
    bytes[at] + 0x100 * bytes[at + 1]
}

/// The 32-bit number whose four bytes stand at `at` in `bytes`.
pub open spec fn read_le32(bytes: Seq<u8>, at: int) -> int {
    bytes[at] + 0x100 * bytes[at + 1] + 0x1_0000 * bytes[at + 2] + 0x100_0000 * bytes[at + 3]
}

/// The letters `RIFF`.
pub open spec fn tag_riff() -> Seq<u8> {
    seq![0x52u8, 0x49u8, 0x46u8, 0x46u8]
}

/// The letters `WAVE`.
pub open spec fn tag_wave() -> Seq<u8> {
    seq![0x57u8, 0x41u8, 0x56u8, 0x45u8]
}

/// The letters `fmt` and a space.
pub open spec fn tag_fmt() -> Seq<u8> {
    seq![0x66u8, 0x6du8, 0x74u8, 0x20u8]
}

/// The letters `data`.
pub open spec fn tag_data() -> Seq<u8> {
    seq![0x64u8, 0x61u8, 0x74u8, 0x61u8]
}

/// The 44 bytes of a header.
pub open spec fn header_bytes(h: WavHeader) -> Seq<u8> {
    tag_riff() + le32(h.riff_size) + tag_wave() + tag_fmt() + le32(16) + le16(h.format_tag) + le16(
        h.channels,
    ) + le32(h.sample_rate) + le32(h.byte_rate) + le16(h.block_align) + le16(h.bits_per_sample)
        + tag_data() + le32(h.data_size)
}

/// The header that the first 44 bytes of `bytes` hold, or `None` where
/// `bytes` is shorter or does not show the four tags and the format chunk
/// size of 16 in their places.
pub open spec fn parse_header(bytes: Seq<u8>) -> Option<WavHeader> {
    if bytes.len() >= 44 && bytes.subrange(0, 4) == tag_riff() && bytes.subrange(8, 12)
        == tag_wave() && bytes.subrange(12, 16) == tag_fmt() && read_le32(bytes, 16) == 16
        && bytes.subrange(36, 40) == tag_data() {
        Some(
            WavHeader {
                riff_size: read_le32(bytes, 4) as u32,
                format_tag: read_le16(bytes, 20) as u16,
                channels: read_le16(bytes, 22) as u16,
                sample_rate: read_le32(bytes, 24) as u32,
                byte_rate: read_le32(bytes, 28) as u32,
                block_align: read_le16(bytes, 32) as u16,
                bits_per_sample: read_le16(bytes, 34) as u16,
                data_size: read_le32(bytes, 40) as u32,
            },
        )
    } else {
        None
    }
}

/// Whether every number of the header of a file of `count` binary32 samples
/// fits its field: the sizes and the byte rate in 32 bits, the bytes per
/// frame in 16 bits.
pub open spec fn float32_fits(count: nat, sample_rate: u32, channels: u32) -> bool {
    &&& 4 * count + 36 <= u32::MAX
    &&& 4 * channels <= u16::MAX
    &&& 4 * sample_rate * channels <= u32::MAX
}

/// The header of a file of `count` binary32 samples.
pub open spec fn float32_header(count: nat, sample_rate: u32, channels: u32) -> WavHeader
    recommends
        float32_fits(count, sample_rate, channels),
{
    WavHeader {
        riff_size: (4 * count + 36) as u32,
        format_tag: FORMAT_IEEE_FLOAT,
        channels: channels as u16,
        sample_rate,
        byte_rate: (4 * sample_rate * channels) as u32,
        block_align: (4 * channels) as u16,
        bits_per_sample: 32,
        data_size: (4 * count) as u32,
    }
}

/// The bytes of a run of samples: four for each, in order.
pub open spec fn sample_bytes(samples: Seq<u32>) -> Seq<u8>
    decreases samples.len(),
{
    if samples.len() == 0 {
        Seq::empty()
    } else {
        sample_bytes(samples.drop_last()) + le32(samples.last())
    }
}

/// The bytes of a whole file.
pub open spec fn float32_file(samples: Seq<u32>, sample_rate: u32, channels: u32) -> Seq<u8>
    recommends
        float32_fits(samples.len(), sample_rate, channels),
{
    header_bytes(float32_header(samples.len(), sample_rate, channels)) + sample_bytes(samples)
}

/// A header, followed by anything, reads back as itself.
pub proof fn lemma_header_reads_back(h: WavHeader, rest: Seq<u8>)
    ensures
        header_bytes(h).len() == 44,
        parse_header(header_bytes(h) + rest) == Some(h),
{
    let head = header_bytes(h);
    let bytes = head + rest;
    assert(head.len() == 44);
    assert(bytes.subrange(0, 4) =~= tag_riff());
    assert(bytes.subrange(8, 12) =~= tag_wave());
    assert(bytes.subrange(12, 16) =~= tag_fmt());
    assert(bytes.subrange(36, 40) =~= tag_data());
    assert(bytes.subrange(4, 8) =~= le32(h.riff_size));
    assert(bytes.subrange(16, 20) =~= le32(16));
    assert(bytes.subrange(20, 22) =~= le16(h.format_tag));
    assert(bytes.subrange(22, 24) =~= le16(h.channels));
    assert(bytes.subrange(24, 28) =~= le32(h.sample_rate));
    assert(bytes.subrange(28, 32) =~= le32(h.byte_rate));
    assert(bytes.subrange(32, 34) =~= le16(h.block_align));
    assert(bytes.subrange(34, 36) =~= le16(h.bits_per_sample));
    assert(bytes.subrange(40, 44) =~= le32(h.data_size));
    lemma_le32_reads_back(bytes, 4, h.riff_size);
    lemma_le32_reads_back(bytes, 16, 16);
    lemma_le16_reads_back(bytes, 20, h.format_tag);
    lemma_le16_reads_back(bytes, 22, h.channels);
    lemma_le32_reads_back(bytes, 24, h.sample_rate);
    lemma_le32_reads_back(bytes, 28, h.byte_rate);
    lemma_le16_reads_back(bytes, 32, h.block_align);
    lemma_le16_reads_back(bytes, 34, h.bits_per_sample);
    lemma_le32_reads_back(bytes, 40, h.data_size);
}

/// Where the two bytes of `x` stand at `at`, `x` is read there.
pub proof fn lemma_le16_reads_back(bytes: Seq<u8>, at: int, x: u16)
    requires
        0 <= at,
        at + 2 <= bytes.len(),
        bytes.subrange(at, at + 2) == le16(x),
    ensures
        read_le16(bytes, at) == x,
{
    let part = bytes.subrange(at, at + 2);
    assert(bytes[at] == part[0]);
    assert(bytes[at + 1] == part[1]);
}

/// Where the four bytes of `x` stand at `at`, `x` is read there.
pub proof fn lemma_le32_reads_back(bytes: Seq<u8>, at: int, x: u32)
    requires
        0 <= at,
        at + 4 <= bytes.len(),
        bytes.subrange(at, at + 4) == le32(x),
    ensures
        read_le32(bytes, at) == x,
{
    let part = bytes.subrange(at, at + 4);
    assert(bytes[at] == part[0]);
    assert(bytes[at + 1] == part[1]);
    assert(bytes[at + 2] == part[2]);
    assert(bytes[at + 3] == part[3]);
}

/// The bytes of a run of samples grow by four with each sample.
pub proof fn lemma_sample_bytes_len(samples: Seq<u32>)
    ensures
        sample_bytes(samples).len() == 4 * samples.len(),
    decreases samples.len(),
{
    if samples.len() > 0 {
        lemma_sample_bytes_len(samples.drop_last());
    }
}

/// Writing a file and reading its header back gives the sample rate, the
/// channel count and the format tag that went in, together with the sizes
/// that belong to them.
pub proof fn lemma_float32_file_reads_back(samples: Seq<u32>, sample_rate: u32, channels: u32)
    requires
        float32_fits(samples.len(), sample_rate, channels),
    ensures
        float32_file(samples, sample_rate, channels).len() == 44 + 4 * samples.len(),
        parse_header(float32_file(samples, sample_rate, channels)) == Some(
            float32_header(samples.len(), sample_rate, channels),
        ),
        float32_header(samples.len(), sample_rate, channels).sample_rate == sample_rate,
        float32_header(samples.len(), sample_rate, channels).channels == channels,
        float32_header(samples.len(), sample_rate, channels).format_tag == FORMAT_IEEE_FLOAT,
        float32_header(samples.len(), sample_rate, channels).data_size == 4 * samples.len(),
{
    lemma_sample_bytes_len(samples);
    lemma_header_reads_back(
        float32_header(samples.len(), sample_rate, channels),
        sample_bytes(samples),
    );
}

/// Each sample stands in the file at its place after the header, and is read
/// back there.
pub proof fn lemma_float32_sample_reads_back(
    samples: Seq<u32>,
    sample_rate: u32,
    channels: u32,
    i: int,
)
    requires
        0 <= i < samples.len(),
    ensures
        read_le32(float32_file(samples, sample_rate, channels), 44 + 4 * i) == samples[i],
{
    let h = float32_header(samples.len(), sample_rate, channels);
    let file = float32_file(samples, sample_rate, channels);
    lemma_header_reads_back(h, sample_bytes(samples));
    lemma_sample_bytes_at(samples, i);
    lemma_sample_bytes_len(samples);
    assert(file.subrange(44 + 4 * i, 44 + 4 * i + 4) =~= sample_bytes(samples).subrange(
        4 * i,
        4 * i + 4,
    ));
    lemma_le32_reads_back(file, 44 + 4 * i, samples[i]);
}

/// The four bytes of sample `i` stand at `4 * i` in the bytes of the run.
pub proof fn lemma_sample_bytes_at(samples: Seq<u32>, i: int)
    requires
        0 <= i < samples.len(),
    ensures
        sample_bytes(samples).len() == 4 * samples.len(),
        sample_bytes(samples).subrange(4 * i, 4 * i + 4) == le32(samples[i]),
    decreases samples.len(),
{
    let front = samples.drop_last();
    lemma_sample_bytes_len(samples);
    lemma_sample_bytes_len(front);
    if i == samples.len() - 1 {
        assert(sample_bytes(samples).subrange(4 * i, 4 * i + 4) =~= le32(samples[i]));
    } else {
        lemma_sample_bytes_at(front, i);
        assert(sample_bytes(samples).subrange(4 * i, 4 * i + 4) =~= sample_bytes(front).subrange(
            4 * i,
            4 * i + 4,
        ));
    }
}

/// Appends the two bytes of `x`.
fn push_le16(out: &mut Vec<u8>, x: u16)
    ensures
        final(out)@ == old(out)@ + le16(x),
{
    out.push((x % 256) as u8);
    out.push((x / 256) as u8);
    assert(out@ =~= old(out)@ + le16(x));
}

/// Appends the four bytes of `x`.
fn push_le32(out: &mut Vec<u8>, x: u32)
    ensures
        final(out)@ == old(out)@ + le32(x),
{
    out.push((x % 256) as u8);
    out.push((x / 0x100 % 256) as u8);
    out.push((x / 0x1_0000 % 256) as u8);
    out.push((x / 0x100_0000) as u8);
    assert(out@ =~= old(out)@ + le32(x));
}

/// Appends four bytes.
fn push_tag(out: &mut Vec<u8>, a: u8, b: u8, c: u8, d: u8)
    ensures
        final(out)@ == old(out)@ + seq![a, b, c, d],
{
    out.push(a);
    out.push(b);
    out.push(c);
    out.push(d);
    assert(out@ =~= old(out)@ + seq![a, b, c, d]);
}

/// Whether the four given bytes stand at `at`.
fn tag_at(bytes: &[u8], at: usize, a: u8, b: u8, c: u8, d: u8) -> (found: bool)
    requires
        at + 4 <= bytes@.len(),
    ensures
        found == (bytes@.subrange(at as int, at + 4) == seq![a, b, c, d]),
{
    let found = bytes[at] == a && bytes[at + 1] == b && bytes[at + 2] == c && bytes[at + 3] == d;
    proof {
        let part = bytes@.subrange(at as int, at + 4);
        assert(part[0] == bytes@[at as int]);
        assert(part[1] == bytes@[at + 1]);
        assert(part[2] == bytes@[at + 2]);
        assert(part[3] == bytes@[at + 3]);
        if found {
            assert(part =~= seq![a, b, c, d]);
        }
    }
    found
}

/// Reads the 16-bit number at `at`.
fn get_le16(bytes: &[u8], at: usize) -> (x: u16)
    requires
        at + 2 <= bytes@.len(),
    ensures
        x == read_le16(bytes@, at as int),
{
    let low: u16 = bytes[at] as u16;
    let high: u16 = bytes[at + 1] as u16;
    low + 0x100 * high
}

/// Reads the 32-bit number at `at`.
fn get_le32(bytes: &[u8], at: usize) -> (x: u32)
    requires
        at + 4 <= bytes@.len(),
    ensures
        x == read_le32(bytes@, at as int),
{
    let b0: u32 = bytes[at] as u32;
    let b1: u32 = bytes[at + 1] as u32;
    let b2: u32 = bytes[at + 2] as u32;
    let b3: u32 = bytes[at + 3] as u32;
    b0 + 0x100 * b1 + 0x1_0000 * b2 + 0x100_0000 * b3
}

impl WavHeader {
    /// The header of a file of `count` binary32 samples, or `None` where a
    /// number of the header does not fit its field.
    pub fn float32(count: usize, sample_rate: u32, channels: u32) -> (header: Option<WavHeader>)
        ensures
            header == if float32_fits(count as nat, sample_rate, channels) {
                Some(float32_header(count as nat, sample_rate, channels))
            } else {
                None
            },
    {
        if count > 0x3fff_fff6 || channels > 0x3fff {
            return None;
        }
        let frame_bytes: u64 = 4 * (channels as u64);
        let quadruple_rate: u64 = 4 * (sample_rate as u64);
        assert(quadruple_rate * channels <= 0x3_ffff_fffc * 0x3fff) by (nonlinear_arith)
            requires
                0 <= quadruple_rate <= 0x3_ffff_fffc,
                0 <= channels <= 0x3fff,
        ;
        let byte_rate: u64 = quadruple_rate * (channels as u64);
        if byte_rate > 0xffff_ffff {
            return None;
        }
        let data_size: u32 = 4 * (count as u32);
        Some(
            WavHeader {
                riff_size: data_size + 36,
                format_tag: FORMAT_IEEE_FLOAT,
                channels: channels as u16,
                sample_rate,
                byte_rate: byte_rate as u32,
                block_align: frame_bytes as u16,
                bits_per_sample: 32,
                data_size,
            },
        )
    }

    /// Writes the header out.
    pub fn to_bytes(&self) -> (bytes: Vec<u8>)
        ensures
            bytes@ == header_bytes(*self),
    {
        let mut out: Vec<u8> = Vec::new();
        push_tag(&mut out, 0x52, 0x49, 0x46, 0x46);
        push_le32(&mut out, self.riff_size);
        push_tag(&mut out, 0x57, 0x41, 0x56, 0x45);
        push_tag(&mut out, 0x66, 0x6d, 0x74, 0x20);
        push_le32(&mut out, 16);
        push_le16(&mut out, self.format_tag);
        push_le16(&mut out, self.channels);
        push_le32(&mut out, self.sample_rate);
        push_le32(&mut out, self.byte_rate);
        push_le16(&mut out, self.block_align);
        push_le16(&mut out, self.bits_per_sample);
        push_tag(&mut out, 0x64, 0x61, 0x74, 0x61);
        push_le32(&mut out, self.data_size);
        assert(out@ =~= header_bytes(*self));
        out
    }

    /// Reads the header that stands at the start of `bytes`.
    pub fn parse(bytes: &[u8]) -> (header: Option<WavHeader>)
        ensures
            header == parse_header(bytes@),
    {
        if bytes.len() < HEADER_LEN {
            return None;
        }
        if !tag_at(bytes, 0, 0x52, 0x49, 0x46, 0x46) || !tag_at(bytes, 8, 0x57, 0x41, 0x56, 0x45)
            || !tag_at(bytes, 12, 0x66, 0x6d, 0x74, 0x20) || get_le32(bytes, 16) != 16 || !tag_at(
            bytes,
            36,
            0x64,
            0x61,
            0x74,
            0x61,
        ) {
            return None;
        }
        Some(
            WavHeader {
                riff_size: get_le32(bytes, 4),
                format_tag: get_le16(bytes, 20),
                channels: get_le16(bytes, 22),
                sample_rate: get_le32(bytes, 24),
                byte_rate: get_le32(bytes, 28),
                block_align: get_le16(bytes, 32),
                bits_per_sample: get_le16(bytes, 34),
                data_size: get_le32(bytes, 40),
            },
        )
    }
}

/// Lays out a whole file: the header and then the samples. Gives `None`
/// where a number of the header does not fit its field.
pub fn encode_float32(samples: &[u32], sample_rate: u32, channels: u32) -> (file: Option<Vec<u8>>)
    ensures
        match file {
            Some(bytes) => {
                &&& float32_fits(samples@.len(), sample_rate, channels)
                &&& bytes@ == float32_file(samples@, sample_rate, channels)
            },
            None => !float32_fits(samples@.len(), sample_rate, channels),
        },
{
    let header = match WavHeader::float32(samples.len(), sample_rate, channels) {
        Some(h) => h,
        None => {
            return None;
        },
    };
    let mut out = header.to_bytes();
    let ghost head = out@;
    let mut i: usize = 0;
    while i < samples.len()
        invariant
            i <= samples@.len(),
            out@ == head + sample_bytes(samples@.subrange(0, i as int)),
        decreases samples@.len() - i,
    {
        push_le32(&mut out, samples[i]);
        proof {
            let before = samples@.subrange(0, i as int);
            let after = samples@.subrange(0, i + 1);
            assert(after.drop_last() =~= before);
            assert(after.last() == samples@[i as int]);
            assert(out@ =~= head + sample_bytes(after));
        }
        i = i + 1;
    }
    assert(samples@.subrange(0, i as int) =~= samples@);
    Some(out)
}

} // verus!
