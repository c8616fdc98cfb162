//! A whole wave file: the header followed at once by the samples.

use crate::config::{lemma_valid_bounds, WAVConfig};
use crate::header::{lemma_layout_offsets, lemma_parse_layout, WAVHeader};
use crate::samples::{append_samples, has_length, samples_layout};
use vstd::prelude::*;

verus! {

/// The bytes of a file that holds `header` and `samples`.
pub open spec fn file_layout(header: WAVHeader, samples: Seq<i16>) -> Seq<u8> {
    header.layout() + samples_layout(samples)
}

/// The bytes of a file that holds `header` and `samples`.
pub fn encode_file(header: &WAVHeader, samples: &[i16]) -> (out: Vec<u8>)
    ensures
        out@ == file_layout(*header, samples@),
{
    let mut out = header.to_bytes();
    append_samples(&mut out, samples);
    out
}

/// A file written for a valid configuration reads back: the header found at
/// its start is the one that was written, so it gives the configuration's
/// channel count, sample rate and bit depth, and the data length it
/// announces is the number of bytes that follow the header exactly when the
/// samples take as many bytes as the configuration calls for.
pub proof fn lemma_file_round_trip(config: WAVConfig, samples: Seq<i16>)
    requires
        config.valid(),
    ensures
        ({
            let bytes = file_layout(WAVHeader::derived_from(config), samples);
            &&& bytes.len() == 44 + 2 * samples.len()
            &&& WAVHeader::parse(bytes) matches Some(header)
            &&& header == WAVHeader::derived_from(config)
            &&& header.num_channels == config.num_channels
            &&& header.sample_rate == config.sample_rate
            &&& header.bits_per_sample == config.bits_per_sample
            &&& header.data_length == config.data_length()
            &&& (header.data_length == bytes.len() - 44 <==> 2 * samples.len()
                == config.data_length())
        }),
{
    let header = WAVHeader::derived_from(config);
    lemma_valid_bounds(config);
    assert(header.layout().len() == 44);
    lemma_parse_layout(header, samples_layout(samples));
}

/// A valid configuration has a clip length: the number of samples that the
/// header counts on. Where one sample of every channel takes two bytes,
/// that many 16-bit samples fill the announced data length exactly.
pub proof fn lemma_valid_has_length(config: WAVConfig)
    requires
        config.valid(),
    ensures
        has_length(config.sample_rate, config.duration_seconds),
        config.bytes_per_sample() == 2 ==> 2 * config.sample_count() == config.data_length(),
{
    lemma_valid_bounds(config);
}

/// A clip of no duration has no data: its file is the 44 bytes of the
/// header and nothing else.
pub proof fn lemma_empty_clip(config: WAVConfig)
    requires
        config.valid(),
        config.duration_seconds == 0,
    ensures
        config.sample_count() == 0,
        WAVHeader::derived_from(config).data_length == 0,
        WAVHeader::derived_from(config).file_length == 44,
        file_layout(WAVHeader::derived_from(config), Seq::<i16>::empty())
            == WAVHeader::derived_from(config).layout(),
        file_layout(WAVHeader::derived_from(config), Seq::<i16>::empty()).len() == 44,
{
    let header = WAVHeader::derived_from(config);
    let rate = config.sample_rate as int;
    let duration = config.duration_seconds as int;
    let width = config.bytes_per_sample();
    assert(rate * duration == 0) by (nonlinear_arith)
        requires
            duration == 0,
    ;
    assert((rate * duration) * width == 0) by (nonlinear_arith)
        requires
            rate * duration == 0,
    ;
    lemma_layout_offsets(header);
}

} // verus!
