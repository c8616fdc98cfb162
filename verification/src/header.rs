//! The 44-byte header of a wave file: how it follows from a configuration,
//! how it is laid out in bytes, and how it is read back.

use crate::config::{lemma_valid_bounds, ConfigError, WAVConfig, HEADER_LENGTH};
use crate::le::{
    decode_i16, decode_i32, le_bytes_i16, le_bytes_i32, le_value_i16, le_value_i32,
    lemma_i16_bytes_of_value, lemma_i16_value_of_bytes, lemma_i32_bytes_of_value,
    lemma_i32_value_of_bytes, put_i16, put_i32,
};
use vstd::prelude::*;

verus! {

/// The ASCII text `RIFF`, which opens the file.
pub const RIFF_TAG: [u8; 4] = [0x52, 0x49, 0x46, 0x46];

/// The ASCII text `WAVE`, which names the format.
pub const WAVE_TAG: [u8; 4] = [0x57, 0x41, 0x56, 0x45];

/// The ASCII text `fmt ` (with its trailing space), which opens the format
/// chunk.
pub const FMT_TAG: [u8; 4] = [0x66, 0x6d, 0x74, 0x20];

/// The ASCII text `data`, which opens the sample chunk.
pub const DATA_TAG: [u8; 4] = [0x64, 0x61, 0x74, 0x61];

/// The bytes of a text whose characters are all ASCII.
pub open spec fn ascii(text: Seq<char>) -> Seq<u8> {
    text.map_values(|c: char| c as u8)
}

/// The four tags spell `RIFF`, `WAVE`, `fmt ` and `data`.
pub proof fn lemma_tag_texts()
    ensures
        RIFF_TAG@ == ascii("RIFF"@),
        WAVE_TAG@ == ascii("WAVE"@),
        FMT_TAG@ == ascii("fmt "@),
        DATA_TAG@ == ascii("data"@),
{
    reveal_strlit("RIFF");
    reveal_strlit("WAVE");
    reveal_strlit("fmt ");
    reveal_strlit("data");
}

/// The fields of a wave header, in the order in which the file stores them.
#[derive(Clone, Copy, Debug, PartialEq, Eq)]
pub struct WAVHeader {
    pub riff: [u8; 4],
    pub file_length: i32,
    pub wave: [u8; 4],
    pub fmt: [u8; 4],
    pub chunk_size: i32,
    pub format_tag: i16,
    pub num_channels: i16,
    pub sample_rate: i32,
    pub bytes_per_second: i32,
    pub bytes_per_sample: i16,
    pub bits_per_sample: i16,
    pub data: [u8; 4],
    pub data_length: i32,
}

impl WAVHeader {
    /// The four tags hold the texts that the format prescribes.
    pub open spec fn well_formed(&self) -> bool {
        &&& self.riff@ == RIFF_TAG@
        &&& self.wave@ == WAVE_TAG@
        &&& self.fmt@ == FMT_TAG@
        &&& self.data@ == DATA_TAG@
    }

    /// The header of a clip with the given configuration.
    pub open spec fn derived_from(config: WAVConfig) -> WAVHeader {
        WAVHeader {
            riff: RIFF_TAG,
            file_length: config.file_length() as i32,
            wave: WAVE_TAG,
            fmt: FMT_TAG,
            chunk_size: config.chunk_size,
            format_tag: config.format_tag,
            num_channels: config.num_channels,
            sample_rate: config.sample_rate,
            bytes_per_second: config.byte_rate() as i32,
            bytes_per_sample: config.bytes_per_sample() as i16,
            bits_per_sample: config.bits_per_sample,
            data: DATA_TAG,
            data_length: config.data_length() as i32,
        }
    }

    /// The bytes that store the header: every field in order, the integers
    /// least significant byte first.
    pub open spec fn layout(&self) -> Seq<u8> {
        self.riff@ + le_bytes_i32(self.file_length) + self.wave@ + self.fmt@ + le_bytes_i32(
            self.chunk_size,
        ) + le_bytes_i16(self.format_tag) + le_bytes_i16(self.num_channels) + le_bytes_i32(
            self.sample_rate,
        ) + le_bytes_i32(self.bytes_per_second) + le_bytes_i16(self.bytes_per_sample)
            + le_bytes_i16(self.bits_per_sample) + self.data@ + le_bytes_i32(self.data_length)
    }

    /// Whether `bytes` is long enough to hold a header and carries the four
    /// tags at their offsets.
    pub open spec fn recognizes(bytes: Seq<u8>) -> bool {
        &&& bytes.len() >= HEADER_LENGTH
        &&& bytes.subrange(0, 4) == RIFF_TAG@
        &&& bytes.subrange(8, 12) == WAVE_TAG@
        &&& bytes.subrange(12, 16) == FMT_TAG@
        &&& bytes.subrange(36, 40) == DATA_TAG@
    }

    /// The header whose fields are read from the first 44 bytes of `bytes`.
    pub open spec fn decoded(bytes: Seq<u8>) -> WAVHeader
        recommends
            bytes.len() >= HEADER_LENGTH,
    {
        WAVHeader {
            riff: [bytes[0], bytes[1], bytes[2], bytes[3]],
            file_length: le_value_i32(bytes.subrange(4, 8)) as i32,
            wave: [bytes[8], bytes[9], bytes[10], bytes[11]],
            fmt: [bytes[12], bytes[13], bytes[14], bytes[15]],
            chunk_size: le_value_i32(bytes.subrange(16, 20)) as i32,
            format_tag: le_value_i16(bytes.subrange(20, 22)) as i16,
            num_channels: le_value_i16(bytes.subrange(22, 24)) as i16,
            sample_rate: le_value_i32(bytes.subrange(24, 28)) as i32,
            bytes_per_second: le_value_i32(bytes.subrange(28, 32)) as i32,
            bytes_per_sample: le_value_i16(bytes.subrange(32, 34)) as i16,
            bits_per_sample: le_value_i16(bytes.subrange(34, 36)) as i16,
            data: [bytes[36], bytes[37], bytes[38], bytes[39]],
            data_length: le_value_i32(bytes.subrange(40, 44)) as i32,
        }
    }

    /// What reading a header from the start of `bytes` gives: the decoded
    /// fields where the tags are in place, nothing otherwise.
    pub open spec fn parse(bytes: Seq<u8>) -> Option<WAVHeader> {
        if Self::recognizes(bytes) {
            Some(Self::decoded(bytes))
        } else {
            None
        }
    }

    /// Builds the header of a clip with the given configuration.
    pub fn new(config: &WAVConfig) -> (header: Self)
        requires
            config.valid(),
        ensures
            header == Self::derived_from(*config),
            header.well_formed(),
            header.data_length == config.sample_rate * config.duration_seconds
                * (config.bits_per_sample as int / 8) * config.num_channels,
            header.file_length == header.data_length + HEADER_LENGTH,
    {
        proof {
            lemma_valid_bounds(*config);
        }
        let bytes_per_sample: i16 = (config.bits_per_sample / 8) * config.num_channels;
        let buffer_size: i32 = config.sample_rate * config.duration_seconds;
        let data_length: i32 = buffer_size * (bytes_per_sample as i32);
        WAVHeader {
            riff: RIFF_TAG,
            wave: WAVE_TAG,
            fmt: FMT_TAG,
            data: DATA_TAG,
            file_length: data_length + HEADER_LENGTH,
            chunk_size: config.chunk_size,
            format_tag: config.format_tag,
            num_channels: config.num_channels,
            sample_rate: config.sample_rate,
            bits_per_sample: config.bits_per_sample,
            bytes_per_second: config.sample_rate * (bytes_per_sample as i32),
            bytes_per_sample,
            data_length,
        }
    }

    /// The 44 bytes that store the header.
    pub fn to_bytes(&self) -> (out: Vec<u8>)
        ensures
            out@ == self.layout(),
            out@.len() == HEADER_LENGTH,
    {
        let mut out: Vec<u8> = Vec::with_capacity(HEADER_LENGTH as usize);
        put_tag(&mut out, &self.riff);
        assert(out@ =~= self.riff@);
        put_i32(&mut out, self.file_length);
        put_tag(&mut out, &self.wave);
        put_tag(&mut out, &self.fmt);
        put_i32(&mut out, self.chunk_size);
        put_i16(&mut out, self.format_tag);
        put_i16(&mut out, self.num_channels);
        put_i32(&mut out, self.sample_rate);
        put_i32(&mut out, self.bytes_per_second);
        put_i16(&mut out, self.bytes_per_sample);
        put_i16(&mut out, self.bits_per_sample);
        put_tag(&mut out, &self.data);
        put_i32(&mut out, self.data_length);
        out
    }

    /// Reads a header from the start of `bytes`. Bytes after the first 44
    /// are not looked at.
    pub fn from_bytes(bytes: &[u8]) -> (r: Option<WAVHeader>)
        ensures
            r == Self::parse(bytes@),
    {
        if bytes.len() < HEADER_LENGTH as usize {
            return None;
        }
        let riff: [u8; 4] = [bytes[0], bytes[1], bytes[2], bytes[3]];
        let wave: [u8; 4] = [bytes[8], bytes[9], bytes[10], bytes[11]];
        let fmt: [u8; 4] = [bytes[12], bytes[13], bytes[14], bytes[15]];
        let data: [u8; 4] = [bytes[36], bytes[37], bytes[38], bytes[39]];
        proof {
            assert(riff@ =~= bytes@.subrange(0, 4));
            assert(wave@ =~= bytes@.subrange(8, 12));
            assert(fmt@ =~= bytes@.subrange(12, 16));
            assert(data@ =~= bytes@.subrange(36, 40));
        }
        if !(same_tag(&riff, &RIFF_TAG) && same_tag(&wave, &WAVE_TAG) && same_tag(&fmt, &FMT_TAG)
            && same_tag(&data, &DATA_TAG)) {
            return None;
        }
        Some(
            WAVHeader {
                riff,
                file_length: read_i32(bytes, 4),
                wave,
                fmt,
                chunk_size: read_i32(bytes, 16),
                format_tag: read_i16(bytes, 20),
                num_channels: read_i16(bytes, 22),
                sample_rate: read_i32(bytes, 24),
                bytes_per_second: read_i32(bytes, 28),
                bytes_per_sample: read_i16(bytes, 32),
                bits_per_sample: read_i16(bytes, 34),
                data,
                data_length: read_i32(bytes, 40),
            },
        )
    }
}

/// Builds the header of a clip with the given configuration, or says why
/// the configuration has none.
pub fn build_header(config: &WAVConfig) -> (r: Result<WAVHeader, ConfigError>)
    ensures
        config.valid() ==> r == Ok::<WAVHeader, ConfigError>(WAVHeader::derived_from(*config)),
        !config.well_formed() ==> r == Err::<WAVHeader, ConfigError>(ConfigError::Malformed),
        config.well_formed() && !config.representable() ==> r == Err::<WAVHeader, ConfigError>(
            ConfigError::Overflow,
        ),
        r matches Ok(header) ==> {
            &&& header.well_formed()
            &&& header.data_length == config.sample_rate * config.duration_seconds
                * (config.bits_per_sample as int / 8) * config.num_channels
            &&& header.file_length == header.data_length + HEADER_LENGTH
        },
{
    match config.validate() {
        Ok(()) => Ok(WAVHeader::new(config)),
        Err(e) => Err(e),
    }
}

/// Appends the four bytes of `tag` to `out`.
fn put_tag(out: &mut Vec<u8>, tag: &[u8; 4])
    ensures
        final(out)@ == old(out)@ + tag@,
{
    out.push(tag[0]);
    out.push(tag[1]);
    out.push(tag[2]);
    out.push(tag[3]);
}

/// Whether two tags hold the same four bytes.
fn same_tag(a: &[u8; 4], b: &[u8; 4]) -> (r: bool)
    ensures
        r <==> a@ == b@,
{
    let r = a[0] == b[0] && a[1] == b[1] && a[2] == b[2] && a[3] == b[3];
    assert(r ==> a@ =~= b@);
    r
}

/// The 16-bit value stored at `bytes[at..at + 2]`.
fn read_i16(bytes: &[u8], at: usize) -> (v: i16)
    requires
        at + 2 <= bytes@.len(),
    ensures
        v == le_value_i16(bytes@.subrange(at as int, at + 2)),
{
    let field: [u8; 2] = [bytes[at], bytes[at + 1]];
    decode_i16(field)
}

/// The 32-bit value stored at `bytes[at..at + 4]`.
fn read_i32(bytes: &[u8], at: usize) -> (v: i32)
    requires
        at + 4 <= bytes@.len(),
    ensures
        v == le_value_i32(bytes@.subrange(at as int, at + 4)),
{
    let field: [u8; 4] = [bytes[at], bytes[at + 1], bytes[at + 2], bytes[at + 3]];
    decode_i32(field)
}

/// The bytes of a header are 44 in number, and every field is stored at its
/// fixed offset.
pub proof fn lemma_layout_offsets(header: WAVHeader)
    ensures
        header.layout().len() == HEADER_LENGTH,
        header.layout().subrange(0, 4) == header.riff@,
        header.layout().subrange(4, 8) == le_bytes_i32(header.file_length),
        header.layout().subrange(8, 12) == header.wave@,
        header.layout().subrange(12, 16) == header.fmt@,
        header.layout().subrange(16, 20) == le_bytes_i32(header.chunk_size),
        header.layout().subrange(20, 22) == le_bytes_i16(header.format_tag),
        header.layout().subrange(22, 24) == le_bytes_i16(header.num_channels),
        header.layout().subrange(24, 28) == le_bytes_i32(header.sample_rate),
        header.layout().subrange(28, 32) == le_bytes_i32(header.bytes_per_second),
        header.layout().subrange(32, 34) == le_bytes_i16(header.bytes_per_sample),
        header.layout().subrange(34, 36) == le_bytes_i16(header.bits_per_sample),
        header.layout().subrange(36, 40) == header.data@,
        header.layout().subrange(40, 44) == le_bytes_i32(header.data_length),
{
    // Each equality holds byte by byte.
    let bytes = header.layout();
    assert(bytes.len() == 44);
    assert(bytes.subrange(0, 4) =~= header.riff@);
    assert(bytes.subrange(4, 8) =~= le_bytes_i32(header.file_length));
    assert(bytes.subrange(8, 12) =~= header.wave@);
    assert(bytes.subrange(12, 16) =~= header.fmt@);
    assert(bytes.subrange(16, 20) =~= le_bytes_i32(header.chunk_size));
    assert(bytes.subrange(20, 22) =~= le_bytes_i16(header.format_tag));
    assert(bytes.subrange(22, 24) =~= le_bytes_i16(header.num_channels));
    assert(bytes.subrange(24, 28) =~= le_bytes_i32(header.sample_rate));
    assert(bytes.subrange(28, 32) =~= le_bytes_i32(header.bytes_per_second));
    assert(bytes.subrange(32, 34) =~= le_bytes_i16(header.bytes_per_sample));
    assert(bytes.subrange(34, 36) =~= le_bytes_i16(header.bits_per_sample));
    assert(bytes.subrange(36, 40) =~= header.data@);
    assert(bytes.subrange(40, 44) =~= le_bytes_i32(header.data_length));
}

/// The header of every valid configuration carries the four tags, so its
/// bytes hold `RIFF` at offset 0, `WAVE` at 8, `fmt ` at 12 and `data` at 36.
pub proof fn lemma_tags_in_place(config: WAVConfig)
    requires
        config.valid(),
    ensures
        WAVHeader::derived_from(config).well_formed(),
        WAVHeader::derived_from(config).layout().subrange(0, 4) == RIFF_TAG@,
        WAVHeader::derived_from(config).layout().subrange(8, 12) == WAVE_TAG@,
        WAVHeader::derived_from(config).layout().subrange(12, 16) == FMT_TAG@,
        WAVHeader::derived_from(config).layout().subrange(36, 40) == DATA_TAG@,
{
    lemma_layout_offsets(WAVHeader::derived_from(config));
}

/// Reading a header from bytes that begin with the layout of a well-formed
/// header gives that header back, whatever follows it.
pub proof fn lemma_parse_layout(header: WAVHeader, rest: Seq<u8>)
    requires
        header.well_formed(),
    ensures
        WAVHeader::parse(header.layout() + rest) == Some(header),
{
    let bytes = header.layout() + rest;
    lemma_layout_offsets(header);
    // What follows the header does not change what is read from its 44 bytes.
    assert forall|from: int, to: int| 0 <= from <= to <= 44 implies #[trigger] bytes.subrange(
        from,
        to,
    ) == header.layout().subrange(from, to) by {}
    lemma_i32_value_of_bytes(header.file_length);
    lemma_i32_value_of_bytes(header.chunk_size);
    lemma_i16_value_of_bytes(header.format_tag);
    lemma_i16_value_of_bytes(header.num_channels);
    lemma_i32_value_of_bytes(header.sample_rate);
    lemma_i32_value_of_bytes(header.bytes_per_second);
    lemma_i16_value_of_bytes(header.bytes_per_sample);
    lemma_i16_value_of_bytes(header.bits_per_sample);
    lemma_i32_value_of_bytes(header.data_length);
    let read = WAVHeader::decoded(bytes);
    assert(read.riff =~= header.riff);
    assert(read.wave =~= header.wave);
    assert(read.fmt =~= header.fmt);
    assert(read.data =~= header.data);
}

/// A header that was read from bytes is well formed, and its layout is the
/// 44 bytes it was read from.
pub proof fn lemma_layout_parse(bytes: Seq<u8>)
    requires
        WAVHeader::recognizes(bytes),
    ensures
        WAVHeader::decoded(bytes).well_formed(),
        WAVHeader::decoded(bytes).layout() == bytes.subrange(0, 44),
{
    lemma_i32_bytes_of_value(bytes.subrange(4, 8));
    lemma_i32_bytes_of_value(bytes.subrange(16, 20));
    lemma_i16_bytes_of_value(bytes.subrange(20, 22));
    lemma_i16_bytes_of_value(bytes.subrange(22, 24));
    lemma_i32_bytes_of_value(bytes.subrange(24, 28));
    lemma_i32_bytes_of_value(bytes.subrange(28, 32));
    lemma_i16_bytes_of_value(bytes.subrange(32, 34));
    lemma_i16_bytes_of_value(bytes.subrange(34, 36));
    lemma_i32_bytes_of_value(bytes.subrange(40, 44));
}

} // verus!
