//! The configuration record from which a wave header is derived, and the
//! quantities that follow from it.

use vstd::prelude::*;

verus! {

/// Number of bytes that precede the sample data in a wave file.
pub const HEADER_LENGTH: i32 = 44;

/// Parameters of an uncompressed PCM clip.
#[derive(Clone, Copy, Debug, PartialEq, Eq, Structural)]
pub struct WAVConfig {
    pub num_channels: i16,
    pub sample_rate: i32,
    pub bits_per_sample: i16,
    pub chunk_size: i32,
    pub format_tag: i16,
    pub duration_seconds: i32,
}

/// Why a configuration cannot be turned into a header.
#[derive(Clone, Copy, Debug, PartialEq, Eq, Structural)]
pub enum ConfigError {
    /// A field is outside its domain: a count, rate, size or tag that is not
    /// positive, a bit depth that is not a multiple of 8, or a negative
    /// duration.
    Malformed,
    /// A derived quantity does not fit the header field that stores it.
    Overflow,
}

impl Default for WAVConfig {
    /// One channel of 16-bit linear PCM at 8 kHz, two seconds long.
    fn default() -> (config: Self)
        ensures
            config == (WAVConfig {
                num_channels: 1,
                sample_rate: 8000,
                bits_per_sample: 16,
                chunk_size: 16,
                format_tag: 1,
                duration_seconds: 2,
            }),
    {
        WAVConfig {
            num_channels: 1,
            sample_rate: 8000,
            bits_per_sample: 16,
            chunk_size: 16,
            format_tag: 1,
            duration_seconds: 2,
        }
    }
}

impl WAVConfig {
    /// Every field lies in its domain. A clip may be empty, so a duration of
    /// zero is allowed.
    pub open spec fn well_formed(&self) -> bool {
        &&& self.num_channels > 0
        &&& self.sample_rate > 0
        &&& self.bits_per_sample > 0
        &&& self.bits_per_sample % 8 == 0
        &&& self.chunk_size > 0
        &&& self.format_tag > 0
        &&& self.duration_seconds >= 0
    }

    /// Bytes taken by one sample of every channel.
    pub open spec fn bytes_per_sample(&self) -> int {
        (self.bits_per_sample as int / 8) * self.num_channels
    }

    /// Number of samples in the clip.
    pub open spec fn sample_count(&self) -> int {
        self.sample_rate * self.duration_seconds
    }

    /// Bytes of sample data in the clip.
    pub open spec fn data_length(&self) -> int {
        self.sample_count() * self.bytes_per_sample()
    }

    /// Bytes in the whole file: the header and the sample data.
    pub open spec fn file_length(&self) -> int {
        self.data_length() + HEADER_LENGTH
    }

    /// Bytes of sample data played per second.
    pub open spec fn byte_rate(&self) -> int {
        self.sample_rate * self.bytes_per_sample()
    }

    /// Every derived quantity fits the signed header field that stores it.
    pub open spec fn representable(&self) -> bool {
        &&& self.bytes_per_sample() <= i16::MAX
        &&& self.byte_rate() <= i32::MAX
        &&& self.file_length() <= i32::MAX
    }

    /// The configurations that have a header.
    pub open spec fn valid(&self) -> bool {
        self.well_formed() && self.representable()
    }

    /// Decides whether the configuration has a header, and if not, why.
    pub fn validate(&self) -> (r: Result<(), ConfigError>)
        ensures
            self.valid() ==> r == Ok::<(), ConfigError>(()),
            !self.well_formed() ==> r == Err::<(), ConfigError>(ConfigError::Malformed),
            self.well_formed() && !self.representable() ==> r == Err::<(), ConfigError>(
                ConfigError::Overflow,
            ),
    {
        if self.num_channels <= 0 || self.sample_rate <= 0 || self.bits_per_sample <= 0
            || self.bits_per_sample % 8 != 0 || self.chunk_size <= 0 || self.format_tag <= 0
            || self.duration_seconds < 0 {
            return Err(ConfigError::Malformed);
        }
        let depth: i64 = (self.bits_per_sample / 8) as i64;
        let channels: i64 = self.num_channels as i64;
        let rate: i64 = self.sample_rate as i64;
        let duration: i64 = self.duration_seconds as i64;
        assert(1 <= depth * channels <= 4095 * 32767) by (nonlinear_arith)
            requires
                1 <= depth <= 4095,
                1 <= channels <= 32767,
        ;
        let bytes_per_sample: i64 = depth * channels;
        if bytes_per_sample > i16::MAX as i64 {
            return Err(ConfigError::Overflow);
        }
        assert(1 <= rate * bytes_per_sample <= 2147483647 * 32767) by (nonlinear_arith)
            requires
                1 <= rate <= 2147483647,
                1 <= bytes_per_sample <= 32767,
        ;
        if rate * bytes_per_sample > i32::MAX as i64 {
            return Err(ConfigError::Overflow);
        }
        assert(0 <= rate * duration <= 2147483647 * 2147483647) by (nonlinear_arith)
            requires
                1 <= rate <= 2147483647,
                0 <= duration <= 2147483647,
        ;
        let sample_count: i64 = rate * duration;
        if sample_count > i32::MAX as i64 {
            // The data is at least as long as the samples are many.
            assert(sample_count * bytes_per_sample >= sample_count) by (nonlinear_arith)
                requires
                    sample_count >= 0,
                    bytes_per_sample >= 1,
            ;
            return Err(ConfigError::Overflow);
        }
        assert(0 <= sample_count * bytes_per_sample <= 2147483647 * 32767) by (nonlinear_arith)
            requires
                0 <= sample_count <= 2147483647,
                1 <= bytes_per_sample <= 32767,
        ;
        let data_length: i64 = sample_count * bytes_per_sample;
        if data_length + HEADER_LENGTH as i64 > i32::MAX as i64 {
            return Err(ConfigError::Overflow);
        }
        Ok(())
    }
}

/// In a valid configuration every quantity that the header stores is
/// positive or zero and within the range of its field, and the sample count
/// is no larger than the data length.
pub proof fn lemma_valid_bounds(config: WAVConfig)
    requires
        config.valid(),
    ensures
        1 <= config.bytes_per_sample() <= i16::MAX,
        1 <= config.byte_rate() <= i32::MAX,
        0 <= config.sample_count() <= config.data_length() <= i32::MAX - 44,
        44 <= config.file_length() <= i32::MAX,
        config.data_length() == config.sample_rate * config.duration_seconds
            * (config.bits_per_sample as int / 8) * config.num_channels,
{
    let depth = config.bits_per_sample as int / 8;
    let channels = config.num_channels as int;
    let rate = config.sample_rate as int;
    let duration = config.duration_seconds as int;
    let width = depth * channels;
    let count = rate * duration;
    assert(width >= 1) by (nonlinear_arith)
        requires
            width == depth * channels,
            depth >= 1,
            channels >= 1,
    ;
    assert(rate * width >= 1) by (nonlinear_arith)
        requires
            rate >= 1,
            width >= 1,
    ;
    assert(count >= 0) by (nonlinear_arith)
        requires
            count == rate * duration,
            rate >= 1,
            duration >= 0,
    ;
    assert(count * width >= count) by (nonlinear_arith)
        requires
            count >= 0,
            width >= 1,
    ;
    assert(count * (depth * channels) == count * depth * channels) by (nonlinear_arith);
}

} // verus!
