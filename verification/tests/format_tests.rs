use audio_playback::format::{
    change_number_channels, fits_channel_count, is_interleaved, is_pcm, match_source,
    number_interleaved_channels, sample_word_size, with_channel_count, with_sample_rate,
    StreamFormat, FLAG_NON_INTERLEAVED, LINEAR_PCM,
};

const FLOAT_PACKED: u32 = 0x1 | 0x8;

fn pcm(flags: u32, bytes_per_frame: u32, channels: u32, bits: u32) -> StreamFormat {
    StreamFormat {
        sample_rate_bits: 44100.0f64.to_bits(),
        format_id: LINEAR_PCM,
        format_flags: flags,
        bytes_per_packet: bytes_per_frame,
        frames_per_packet: 1,
        bytes_per_frame,
        channels_per_frame: channels,
        bits_per_channel: bits,
        reserved: 0,
    }
}

fn compressed() -> StreamFormat {
    StreamFormat {
        sample_rate_bits: 48000.0f64.to_bits(),
        format_id: 0x6161_6320,
        format_flags: FLAG_NON_INTERLEAVED,
        bytes_per_packet: 0,
        frames_per_packet: 1024,
        bytes_per_frame: 0,
        channels_per_frame: 2,
        bits_per_channel: 0,
        reserved: 0,
    }
}

#[test]
fn linear_pcm_is_recognised_by_its_identifier() {
    assert_eq!(LINEAR_PCM, u32::from_be_bytes(*b"lpcm"));
    assert!(is_pcm(&pcm(FLOAT_PACKED, 8, 2, 32)));
    assert!(!is_pcm(&compressed()));
}

#[test]
fn only_flagged_pcm_is_non_interleaved() {
    assert!(is_interleaved(&pcm(FLOAT_PACKED, 8, 2, 32)));
    assert!(!is_interleaved(&pcm(FLOAT_PACKED | FLAG_NON_INTERLEAVED, 4, 2, 32)));
    assert!(is_interleaved(&compressed()));
}

#[test]
fn a_non_interleaved_buffer_holds_one_channel() {
    assert_eq!(number_interleaved_channels(&pcm(FLOAT_PACKED, 8, 2, 32)), 2);
    assert_eq!(
        number_interleaved_channels(&pcm(FLOAT_PACKED | FLAG_NON_INTERLEAVED, 4, 2, 32)),
        1
    );
    assert_eq!(number_interleaved_channels(&compressed()), 2);
}

#[test]
fn word_size_is_the_frame_shared_among_the_channels() {
    assert_eq!(sample_word_size(&pcm(FLOAT_PACKED, 8, 2, 32)), 4);
    assert_eq!(sample_word_size(&pcm(0xC, 4, 2, 16)), 2);
    assert_eq!(sample_word_size(&pcm(0xC, 6, 2, 24)), 3);
    assert_eq!(sample_word_size(&pcm(FLOAT_PACKED | FLAG_NON_INTERLEAVED, 4, 2, 32)), 4);
}

#[test]
fn word_size_falls_back_to_the_bits_in_whole_bytes() {
    assert_eq!(sample_word_size(&pcm(0xC, 0, 2, 16)), 2);
    assert_eq!(sample_word_size(&pcm(0xC, 4, 0, 24)), 3);
    assert_eq!(sample_word_size(&pcm(0xC, 0, 2, 20)), 3);
    assert_eq!(sample_word_size(&pcm(0xC, 0, 2, 1)), 1);
    assert_eq!(sample_word_size(&pcm(0xC, 0, 2, 8)), 1);
    assert_eq!(sample_word_size(&pcm(0xC, 0, 2, 9)), 2);
    assert_eq!(sample_word_size(&pcm(0xC, 0, 2, u32::MAX)), 0x2000_0000);
    assert_eq!(sample_word_size(&pcm(0xC, 0, 2, u32::MAX - 7)), 0x1FFF_FFFF);
}

#[test]
fn a_frame_smaller_than_its_channels_has_no_word() {
    assert_eq!(sample_word_size(&pcm(0xC, 1, 2, 16)), 0);
    assert_eq!(sample_word_size(&pcm(0xC, 3, 4, 32)), 0);
    assert_eq!(sample_word_size(&pcm(0xC, 7, 8, 0)), 0);
    assert_eq!(sample_word_size(&pcm(0xC, 5, 2, 16)), 2);
}

#[test]
fn word_size_is_zero_where_nothing_gives_it() {
    assert_eq!(sample_word_size(&pcm(0xC, 0, 2, 0)), 0);
    assert_eq!(sample_word_size(&compressed()), 0);
    assert_eq!(sample_word_size(&pcm(0xC, 0, 0, 0)), 0);
}

#[test]
fn a_channel_change_takes_the_bits_where_the_frame_gives_no_word() {
    let small = pcm(0xC, 1, 2, 16);
    let three = with_channel_count(small, 3);
    assert_eq!(three.bytes_per_frame, 6);
    assert_eq!(three.bytes_per_packet, 6);
    assert_eq!(three.channels_per_frame, 3);
    assert_eq!(sample_word_size(&three), 2);
    let planar = with_channel_count(pcm(0xC | FLAG_NON_INTERLEAVED, 0, 2, 24), 2);
    assert_eq!(planar.bytes_per_frame, 3);
    assert_eq!(sample_word_size(&planar), 3);
    let nothing = with_channel_count(pcm(0xC, 1, 2, 0), 5);
    assert_eq!(nothing.bytes_per_frame, 0);
    assert_eq!(nothing.bytes_per_frame, 5 * sample_word_size(&nothing));
}

#[test]
fn interleaved_frame_grows_with_the_channel_count() {
    let stereo = pcm(FLOAT_PACKED, 8, 2, 32);
    let six = with_channel_count(stereo, 6);
    assert_eq!(
        six,
        StreamFormat {
            sample_rate_bits: 44100.0f64.to_bits(),
            format_id: LINEAR_PCM,
            format_flags: FLOAT_PACKED,
            bytes_per_packet: 24,
            frames_per_packet: 1,
            bytes_per_frame: 24,
            channels_per_frame: 6,
            bits_per_channel: 32,
            reserved: 0,
        }
    );
    assert_eq!(six.bytes_per_frame, 6 * sample_word_size(&six));
    assert!(is_interleaved(&six));
}

#[test]
fn non_interleaved_frame_stays_one_word() {
    let planar = pcm(FLOAT_PACKED | FLAG_NON_INTERLEAVED, 4, 2, 32);
    let six = with_channel_count(planar, 6);
    assert_eq!(six.channels_per_frame, 6);
    assert_eq!(six.frames_per_packet, 1);
    assert_eq!(six.bytes_per_frame, 4);
    assert_eq!(six.bytes_per_packet, 4);
    assert_eq!(six.format_flags, FLOAT_PACKED | FLAG_NON_INTERLEAVED);
    assert_eq!(six.bytes_per_frame, sample_word_size(&six));
    assert!(!is_interleaved(&six));
}

#[test]
fn a_flag_on_a_format_that_is_not_pcm_is_cleared() {
    let derived = with_channel_count(compressed(), 1);
    assert_eq!(derived.format_flags, 0);
    assert_eq!(derived.frames_per_packet, 1);
    assert_eq!(derived.bytes_per_frame, 0);
    assert_eq!(derived.channels_per_frame, 1);
}

#[test]
fn changing_the_channel_count_twice_changes_nothing_more() {
    let formats = [
        pcm(FLOAT_PACKED, 8, 2, 32),
        pcm(FLOAT_PACKED | FLAG_NON_INTERLEAVED, 4, 2, 32),
        pcm(0xC, 0, 2, 20),
        pcm(0xC, 1, 2, 16),
        pcm(0xC, 7, 3, 0),
        pcm(0xC, 3, 4, 32),
        compressed(),
    ];
    for format in formats {
        for channels in [0u32, 1, 2, 6, 255] {
            assert!(fits_channel_count(&format, channels));
            let once = with_channel_count(format, channels);
            assert!(fits_channel_count(&once, channels));
            assert_eq!(with_channel_count(once, channels), once);
            if is_interleaved(&format) {
                assert_eq!(once.bytes_per_frame, channels * sample_word_size(&once));
            } else {
                assert_eq!(once.bytes_per_frame, sample_word_size(&once));
            }
        }
    }
}

#[test]
fn no_channels_give_an_empty_frame() {
    let none = with_channel_count(pcm(0xC, 4, 2, 16), 0);
    assert_eq!(none.channels_per_frame, 0);
    assert_eq!(none.bytes_per_frame, 0);
    assert_eq!(none.bytes_per_packet, 0);
    assert_eq!(none.bytes_per_frame, 0 * sample_word_size(&none));
}

#[test]
fn a_frame_too_large_for_its_field_is_told_apart() {
    let wide = pcm(0xC, 0, 1, u32::MAX);
    assert!(fits_channel_count(&wide, 7));
    assert!(!fits_channel_count(&wide, 8));
    assert!(!fits_channel_count(&pcm(0xC, 4, 2, 16), u32::MAX));
    assert!(fits_channel_count(&pcm(0xC | FLAG_NON_INTERLEAVED, 4, 2, 16), u32::MAX));
    assert_eq!(with_channel_count(wide, 7).bytes_per_frame, 0xE000_0000);
}

#[test]
fn changing_in_place_is_deriving_and_replacing() {
    let mut description = pcm(0xC, 4, 2, 16);
    change_number_channels(&mut description, 1);
    assert_eq!(description, with_channel_count(pcm(0xC, 4, 2, 16), 1));
    assert_eq!(description.bytes_per_frame, 2);
    assert_eq!(description.bytes_per_packet, 2);
    assert_eq!(description.channels_per_frame, 1);
}

#[test]
fn changing_the_rate_changes_the_rate_alone() {
    let format = pcm(FLOAT_PACKED | FLAG_NON_INTERLEAVED, 4, 2, 32);
    let faster = with_sample_rate(format, 96000.0f64.to_bits());
    assert_eq!(f64::from_bits(faster.sample_rate_bits), 96000.0);
    assert_eq!(
        faster,
        StreamFormat { sample_rate_bits: 96000.0f64.to_bits(), ..format }
    );
    assert_eq!(with_sample_rate(faster, format.sample_rate_bits), format);
}

#[test]
fn a_unit_is_matched_to_its_source_from_its_own_format() {
    let unit = pcm(FLOAT_PACKED | FLAG_NON_INTERLEAVED, 4, 2, 32);
    let source = StreamFormat { sample_rate_bits: 22050.0f64.to_bits(), ..pcm(0xC, 2, 1, 16) };
    let matched = match_source(unit, &source);
    assert_eq!(
        matched,
        StreamFormat {
            sample_rate_bits: 22050.0f64.to_bits(),
            format_id: LINEAR_PCM,
            format_flags: FLOAT_PACKED | FLAG_NON_INTERLEAVED,
            bytes_per_packet: 4,
            frames_per_packet: 1,
            bytes_per_frame: 4,
            channels_per_frame: 1,
            bits_per_channel: 32,
            reserved: 0,
        }
    );
}
