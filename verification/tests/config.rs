use wav_tone::config::{ConfigError, WAVConfig, HEADER_LENGTH};
use wav_tone::header::{build_header, WAVHeader};

fn config(
    num_channels: i16,
    sample_rate: i32,
    bits_per_sample: i16,
    duration_seconds: i32,
) -> WAVConfig {
    WAVConfig {
        num_channels,
        sample_rate,
        bits_per_sample,
        chunk_size: 16,
        format_tag: 1,
        duration_seconds,
    }
}

#[test]
fn default_config_is_two_seconds_of_mono_16_bit_at_8_khz() {
    let config = WAVConfig::default();
    assert_eq!(config.num_channels, 1);
    assert_eq!(config.sample_rate, 8000);
    assert_eq!(config.bits_per_sample, 16);
    assert_eq!(config.chunk_size, 16);
    assert_eq!(config.format_tag, 1);
    assert_eq!(config.duration_seconds, 2);
    assert_eq!(config.validate(), Ok(()));
}

#[test]
fn header_length_is_44() {
    assert_eq!(HEADER_LENGTH, 44);
}

#[test]
fn default_header_fields() {
    let header = WAVHeader::new(&WAVConfig::default());
    assert_eq!(header.data_length, 32000);
    assert_eq!(header.file_length, 32044);
    assert_eq!(header.bytes_per_second, 16000);
    assert_eq!(header.bytes_per_sample, 2);
    assert_eq!(header.bits_per_sample, 16);
    assert_eq!(header.sample_rate, 8000);
    assert_eq!(header.num_channels, 1);
    assert_eq!(header.chunk_size, 16);
    assert_eq!(header.format_tag, 1);
}

#[test]
fn header_tags_spell_their_names() {
    let header = WAVHeader::new(&WAVConfig::default());
    assert_eq!(&header.riff, b"RIFF");
    assert_eq!(&header.wave, b"WAVE");
    assert_eq!(&header.fmt, b"fmt ");
    assert_eq!(&header.data, b"data");
}

#[test]
fn data_length_is_rate_times_duration_times_sample_width() {
    let cases = [
        (1i16, 8000i32, 16i16, 2i32),
        (2, 44100, 16, 10),
        (2, 48000, 24, 60),
        (6, 96000, 32, 30),
        (1, 11025, 8, 1),
        (1, 1, 8, 1),
    ];
    for (channels, rate, bits, duration) in cases {
        let header = build_header(&config(channels, rate, bits, duration)).unwrap();
        let width = (bits as i64 / 8) * channels as i64;
        let expected = rate as i64 * duration as i64 * width;
        assert_eq!(header.data_length as i64, expected);
        assert_eq!(header.file_length as i64, expected + 44);
        assert_eq!(header.bytes_per_second as i64, rate as i64 * width);
        assert_eq!(header.bytes_per_sample as i64, width);
    }
}

#[test]
fn stereo_cd_quality_minute() {
    let header = build_header(&config(2, 44100, 16, 60)).unwrap();
    assert_eq!(header.bytes_per_sample, 4);
    assert_eq!(header.bytes_per_second, 176400);
    assert_eq!(header.data_length, 10584000);
    assert_eq!(header.file_length, 10584044);
}

#[test]
fn build_header_agrees_with_new() {
    let config = config(2, 22050, 16, 3);
    assert_eq!(build_header(&config), Ok(WAVHeader::new(&config)));
}

#[test]
fn zero_duration_has_no_data() {
    let header = build_header(&config(1, 8000, 16, 0)).unwrap();
    assert_eq!(header.data_length, 0);
    assert_eq!(header.file_length, 44);
    assert_eq!(header.bytes_per_second, 16000);
}

#[test]
fn non_positive_fields_are_malformed() {
    let good = WAVConfig::default();
    assert_eq!(WAVConfig { num_channels: 0, ..good }.validate(), Err(ConfigError::Malformed));
    assert_eq!(WAVConfig { num_channels: -1, ..good }.validate(), Err(ConfigError::Malformed));
    assert_eq!(WAVConfig { sample_rate: 0, ..good }.validate(), Err(ConfigError::Malformed));
    assert_eq!(WAVConfig { sample_rate: -8000, ..good }.validate(), Err(ConfigError::Malformed));
    assert_eq!(WAVConfig { bits_per_sample: 0, ..good }.validate(), Err(ConfigError::Malformed));
    assert_eq!(WAVConfig { bits_per_sample: -16, ..good }.validate(), Err(ConfigError::Malformed));
    assert_eq!(WAVConfig { chunk_size: 0, ..good }.validate(), Err(ConfigError::Malformed));
    assert_eq!(WAVConfig { format_tag: 0, ..good }.validate(), Err(ConfigError::Malformed));
    assert_eq!(WAVConfig { duration_seconds: -1, ..good }.validate(), Err(ConfigError::Malformed));
}

#[test]
fn bit_depth_must_be_a_multiple_of_8() {
    let good = WAVConfig::default();
    assert_eq!(WAVConfig { bits_per_sample: 4, ..good }.validate(), Err(ConfigError::Malformed));
    assert_eq!(WAVConfig { bits_per_sample: 12, ..good }.validate(), Err(ConfigError::Malformed));
    assert_eq!(WAVConfig { bits_per_sample: 17, ..good }.validate(), Err(ConfigError::Malformed));
    assert_eq!(WAVConfig { bits_per_sample: 8, ..good }.validate(), Ok(()));
    assert_eq!(WAVConfig { bits_per_sample: 24, ..good }.validate(), Ok(()));
}

#[test]
fn malformed_wins_over_overflow() {
    let config = config(0, i32::MAX, 16, i32::MAX);
    assert_eq!(build_header(&config), Err(ConfigError::Malformed));
}

#[test]
fn file_length_may_reach_the_largest_i32() {
    let header = build_header(&config(1, 1, 8, i32::MAX - 44)).unwrap();
    assert_eq!(header.data_length, i32::MAX - 44);
    assert_eq!(header.file_length, i32::MAX);
}

#[test]
fn file_length_past_the_largest_i32_overflows() {
    assert_eq!(build_header(&config(1, 1, 8, i32::MAX - 43)), Err(ConfigError::Overflow));
    assert_eq!(build_header(&config(1, 1, 8, i32::MAX)), Err(ConfigError::Overflow));
}

#[test]
fn long_clip_overflows() {
    assert_eq!(build_header(&config(2, 48000, 16, 100000)), Err(ConfigError::Overflow));
    assert_eq!(build_header(&config(1, i32::MAX, 16, i32::MAX)), Err(ConfigError::Overflow));
}

#[test]
fn sample_count_past_the_largest_i32_overflows() {
    assert_eq!(build_header(&config(1, 65536, 8, 32768)), Err(ConfigError::Overflow));
}

#[test]
fn sample_width_must_fit_16_bits() {
    assert_eq!(build_header(&config(8, 1, 32760, 0)).unwrap().bytes_per_sample, 32760);
    assert_eq!(build_header(&config(9, 1, 32760, 0)), Err(ConfigError::Overflow));
    assert_eq!(build_header(&config(i16::MAX, 1, 32760, 0)), Err(ConfigError::Overflow));
}

#[test]
fn byte_rate_must_fit_32_bits() {
    let header = build_header(&config(1, i32::MAX, 8, 0)).unwrap();
    assert_eq!(header.bytes_per_second, i32::MAX);
    assert_eq!(build_header(&config(2, 1 << 30, 16, 0)), Err(ConfigError::Overflow));
    assert_eq!(build_header(&config(2, i32::MAX, 8, 0)), Err(ConfigError::Overflow));
}
