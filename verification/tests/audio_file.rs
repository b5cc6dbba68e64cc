use voice_everywhere::audio_file::{
    after_decode_error, after_read_error, check_audio_file, exceeds_max_duration,
    is_ogg_opus_extension,
    open_opus_stream, parse_opus_header, resampled_len, AudioDecodeError, DecodeProgress,
    StreamErrorKind, StreamStep, MAX_FILE_BYTES,
};

#[test]
fn parses_mono_opus_header_and_preskip() {
    let mut header = b"OpusHead".to_vec();
    header.extend_from_slice(&[1, 1, 0x80, 0x00, 0, 0, 0, 0, 0, 0, 0]);

    assert_eq!(parse_opus_header(&header).unwrap(), (1, 128));
}

#[test]
fn rejects_multichannel_opus_mapping() {
    let mut header = b"OpusHead".to_vec();
    header.extend_from_slice(&[1, 3, 0, 0, 0, 0, 0, 0, 0, 0, 1]);

    assert!(parse_opus_header(&header).is_err());
}

#[test]
fn opus_header_errors_name_the_reason() {
    let mut short = b"OpusHead".to_vec();
    short.extend_from_slice(&[1, 1, 0, 0]);
    assert_eq!(parse_opus_header(&short), Err(AudioDecodeError::InvalidOpusHeader));

    let mut wrong_magic = b"OpusHeaD".to_vec();
    wrong_magic.extend_from_slice(&[1, 1, 0, 0, 0, 0, 0, 0, 0, 0, 0]);
    assert_eq!(parse_opus_header(&wrong_magic), Err(AudioDecodeError::InvalidOpusHeader));

    let mut no_channels = b"OpusHead".to_vec();
    no_channels.extend_from_slice(&[1, 0, 0, 0, 0, 0, 0, 0, 0, 0, 0]);
    assert_eq!(parse_opus_header(&no_channels), Err(AudioDecodeError::UnsupportedOpusChannels));

    let mut mapping = b"OpusHead".to_vec();
    mapping.extend_from_slice(&[1, 2, 0, 0, 0, 0, 0, 0, 0, 0, 1]);
    assert_eq!(parse_opus_header(&mapping), Err(AudioDecodeError::UnsupportedOpusMapping(1)));

    let mut stereo = b"OpusHead".to_vec();
    stereo.extend_from_slice(&[1, 2, 0x38, 0x01, 0x80, 0xbb, 0, 0, 0, 0, 0, 9, 9]);
    assert_eq!(parse_opus_header(&stereo), Ok((2, 312)));
}

#[test]
fn ogg_stream_is_opus_only_with_an_opus_head() {
    assert_eq!(open_opus_stream(7, b"\x01vorbis"), Ok(None));
    let mut header = b"OpusHead".to_vec();
    header.extend_from_slice(&[1, 1, 0x38, 0x01, 0, 0, 0, 0, 0, 0, 0]);
    let stream = open_opus_stream(7, &header).unwrap().unwrap();
    assert_eq!((stream.stream_serial, stream.channels, stream.pre_skip), (7, 1, 312));
    assert_eq!(open_opus_stream(7, b"OpusHead"), Err(AudioDecodeError::InvalidOpusHeader));
}

#[test]
fn only_audio_packets_of_the_stream_are_decoded() {
    let mut header = b"OpusHead".to_vec();
    header.extend_from_slice(&[1, 1, 0, 0, 0, 0, 0, 0, 0, 0, 0]);
    let stream = open_opus_stream(7, &header).unwrap().unwrap();
    assert!(stream.accepts_packet(7, &[0xfc, 0xff, 0xfe]));
    assert!(!stream.accepts_packet(8, &[0xfc, 0xff, 0xfe]));
    assert!(!stream.accepts_packet(7, b"OpusTags\x00\x00"));
    assert!(!stream.accepts_packet(7, &header));
    assert!(stream.accepts_packet(7, b"Opus"));
}

#[test]
fn pre_skip_drops_leading_samples_across_packets() {
    let mut header = b"OpusHead".to_vec();
    header.extend_from_slice(&[1, 1, 0x38, 0x01, 0, 0, 0, 0, 0, 0, 0]);
    let mut stream = open_opus_stream(1, &header).unwrap().unwrap();
    assert_eq!(stream.trim_pre_skip(120), 120);
    assert_eq!(stream.pre_skip, 192);
    assert_eq!(stream.trim_pre_skip(192), 192);
    assert_eq!(stream.pre_skip, 0);
    assert_eq!(stream.trim_pre_skip(960), 0);

    let mut other = open_opus_stream(1, &header).unwrap().unwrap();
    assert_eq!(other.trim_pre_skip(960), 312);
    assert_eq!(other.pre_skip, 0);
}

#[test]
fn files_over_one_gigabyte_or_not_files_are_refused() {
    assert_eq!(check_audio_file(false, 10), Err(AudioDecodeError::NotAFile));
    assert_eq!(check_audio_file(true, MAX_FILE_BYTES), Ok(()));
    assert_eq!(check_audio_file(true, MAX_FILE_BYTES + 1), Err(AudioDecodeError::FileTooLarge));
}

#[test]
fn ogg_and_opus_extensions_are_case_insensitive() {
    assert!(is_ogg_opus_extension(Some("ogg")));
    assert!(is_ogg_opus_extension(Some("OPUS")));
    assert!(is_ogg_opus_extension(Some("Ogg")));
    assert!(!is_ogg_opus_extension(Some("oga")));
    assert!(!is_ogg_opus_extension(Some("mp3")));
    assert!(!is_ogg_opus_extension(None));
}

#[test]
fn decoded_stream_keeps_one_rate() {
    let mut progress = DecodeProgress::new();
    assert_eq!(progress.finish(), Err(AudioDecodeError::NoDecodableSamples));
    assert_eq!(progress.record_buffer(44_100, 2), Ok(()));
    assert_eq!(progress.record_buffer(44_100, 1), Ok(()));
    assert_eq!(progress.record_buffer(48_000, 2), Err(AudioDecodeError::SampleRateChanged));
    assert_eq!(progress.finish(), Ok(44_100));

    let mut silent = DecodeProgress::new();
    assert_eq!(silent.record_buffer(16_000, 0), Err(AudioDecodeError::NoChannels));
}

#[test]
fn stream_errors_end_skip_or_fail() {
    assert_eq!(after_read_error(StreamErrorKind::Io), StreamStep::EndOfStream);
    assert_eq!(
        after_read_error(StreamErrorKind::ResetRequired),
        StreamStep::Fail(AudioDecodeError::DecoderResetRequired)
    );
    assert_eq!(
        after_read_error(StreamErrorKind::Decode),
        StreamStep::Fail(AudioDecodeError::StreamFailed)
    );
    assert_eq!(after_decode_error(StreamErrorKind::Decode), StreamStep::SkipPacket);
    assert_eq!(
        after_decode_error(StreamErrorKind::Io),
        StreamStep::Fail(AudioDecodeError::StreamFailed)
    );
}

#[test]
fn resampled_length_targets_16khz() {
    assert_eq!(resampled_len(48_000, 48_000), Some(16_000));
    assert_eq!(resampled_len(3, 16_000), None);
    assert_eq!(resampled_len(1, 48_000), None);
    assert_eq!(resampled_len(2, 48_000), Some(1));
    assert_eq!(resampled_len(44_100, 44_100), Some(16_000));
    assert_eq!(resampled_len(8_000, 8_000), Some(16_000));
}

#[test]
fn recordings_longer_than_four_hours_are_refused() {
    assert!(!exceeds_max_duration(230_400_000, 16_000));
    assert!(exceeds_max_duration(230_400_001, 16_000));
    assert!(!exceeds_max_duration(691_200_000, 48_000));
    assert!(exceeds_max_duration(1, 0));
    assert!(!exceeds_max_duration(0, 0));
}
