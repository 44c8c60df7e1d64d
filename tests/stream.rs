use threepm::easy_mode::{EasyMode, EasyModeErr};
use threepm::mp3::{DecodeErr, Id3v2Version, MP3FrameInfo, Mp3};

fn frame_with_samples(samples: i32) -> MP3FrameInfo {
    let mut f = MP3FrameInfo::new();
    f.nChans = 2;
    f.samprate = 44100;
    f.bitsPerSample = 16;
    f.outputSamps = samples;
    f
}

#[test]
fn id3v2_size_and_skip_length() {
    let header = [0x49u8, 0x44, 0x33, 0x03, 0x00, 0x00, 0x00, 0x00, 0x00, 0x7F];
    let (offset, tag) = Mp3::find_id3v2(&header).unwrap();
    assert_eq!(offset, 0);
    assert_eq!(tag.size, 127);
    assert_eq!(tag.version, Id3v2Version::Invalid);
    assert!(!tag.flags.unsynchronisation);
    assert!(!tag.flags.footer_present);

    let mut stream = header.to_vec();
    stream.extend_from_slice(&[0u8; 127]);
    stream.extend_from_slice(&[0xFF, 0xFB, 0x90, 0x64, 0x00, 0x00]);
    let mut easy = EasyMode::new();
    assert_eq!(easy.add_data(&stream), stream.len());
    // the first step skips the whole tag: 10 header bytes and 127 of payload
    assert!(!easy.mp3_decode_ready());
    assert_eq!(easy.buffer_used(), stream.len() - 137);
    assert!(easy.mp3_decode_ready());
    assert_eq!(easy.buffer_used(), 6);
    assert!(easy.wants_probe());
}

#[test]
fn id3v2_header_fields_and_offset() {
    let mut data = vec![0u8, 1, 2];
    data.extend_from_slice(&[0x49, 0x44, 0x33, 0x04, 0x00, 0xA0, 0x01, 0x02, 0x03, 0x04]);
    let (offset, tag) = Mp3::find_id3v2(&data).unwrap();
    assert_eq!(offset, 3);
    assert_eq!(tag.size, (1 << 21) + (2 << 14) + (3 << 7) + 4);
    assert!(tag.flags.unsynchronisation);
    assert!(!tag.flags.extended_header);
    assert!(tag.flags.experimental);
    assert!(!tag.flags.footer_present);
}

#[test]
fn id3v2_rejected_headers() {
    // a size byte with its top bit set
    assert!(Mp3::find_id3v2(&[0x49, 0x44, 0x33, 0x03, 0x00, 0x00, 0x00, 0x80, 0x00, 0x01]).is_none());
    // all four low flag bits set
    assert!(Mp3::find_id3v2(&[0x49, 0x44, 0x33, 0x03, 0x00, 0x0F, 0x00, 0x00, 0x00, 0x01]).is_none());
    // version bytes (2, 3) name a listed version
    assert!(Mp3::find_id3v2(&[0x49, 0x44, 0x33, 0x02, 0x03, 0x00, 0x00, 0x00, 0x00, 0x01]).is_none());
    // too short for a header
    assert!(Mp3::find_id3v2(&[0x49, 0x44, 0x33, 0x03, 0x00, 0x00, 0x00, 0x00, 0x7F]).is_none());
    assert!(Mp3::find_id3v2(&[]).is_none());
}

#[test]
fn sync_word_search() {
    assert_eq!(Mp3::find_sync_word(&[]), -1);
    assert_eq!(Mp3::find_sync_word(&[0xFF]), -1);
    assert_eq!(Mp3::find_sync_word(&[0x00, 0x12, 0xFF, 0x0F, 0xFE, 0xF0]), -1);
    assert_eq!(Mp3::find_sync_word(&[0xFF, 0xFB, 0x90]), 0);
    assert_eq!(Mp3::find_sync_word(&[0x00, 0xFF, 0xE0, 0x00, 0x00, 0xFF, 0xF3]), 5);
    assert_eq!(Mp3::find_sync_word(&[0xFF, 0xFF, 0xFA]), 0);
}

#[test]
fn decode_err_codes() {
    let expected = [
        (0, DecodeErr::Okay),
        (-1, DecodeErr::InDataUnderflow),
        (-2, DecodeErr::MaindataUnderfow),
        (-3, DecodeErr::FreeBitrateSync),
        (-4, DecodeErr::OutOfMemory),
        (-5, DecodeErr::NullPointer),
        (-6, DecodeErr::InvalidFrameheader),
        (-7, DecodeErr::InvalidSideinfo),
        (-8, DecodeErr::InvalidScalefact),
        (-9, DecodeErr::InvalidHuffcodes),
        (-10, DecodeErr::InvalidDequantize),
        (-11, DecodeErr::InvalidImdct),
        (-12, DecodeErr::InvalidSubband),
        (-9999, DecodeErr::Unknown),
        (-13, DecodeErr::InvalidError),
        (7, DecodeErr::InvalidError),
    ];
    for (code, err) in expected {
        assert_eq!(DecodeErr::from(code), err);
    }
}

#[test]
fn easy_mode_err_carries_decode_err() {
    assert_eq!(EasyModeErr::from(DecodeErr::InDataUnderflow), EasyModeErr::InDataUnderflow);
    assert_eq!(EasyModeErr::from(DecodeErr::InvalidSubband), EasyModeErr::InvalidSubband);
    assert_eq!(EasyModeErr::from(DecodeErr::Unknown), EasyModeErr::Unknown);
    assert_eq!(EasyModeErr::from(DecodeErr::InvalidError), EasyModeErr::InvalidError);
    assert_eq!(EasyModeErr::from(DecodeErr::Okay), EasyModeErr::Okay);
}

#[test]
fn frame_info_starts_zeroed() {
    let f = MP3FrameInfo::new();
    assert_eq!(f, MP3FrameInfo::default());
    assert_eq!(f.outputSamps, 0);
    assert_eq!(f.nChans, 0);
    assert_eq!(f.output_samples(), 0);
    assert_eq!(frame_with_samples(1152).output_samples(), 1152);
    assert_eq!(frame_with_samples(-4).output_samples(), 0);
}

#[test]
fn unsynced_window_keeps_last_three_bytes() {
    let mut easy = EasyMode::new();
    easy.add_data(&[0u8; 100]);
    assert!(!easy.skip_to_next_sync_word());
    assert_eq!(easy.buffer_used(), 3);
    assert_eq!(easy.buffer_free(), 1021);
    // a sync word that straddles two additions is still found
    let mut easy = EasyMode::new();
    easy.add_data(&[0, 0, 0, 0, 0xFF]);
    assert!(!easy.skip_to_next_sync_word());
    assert_eq!(easy.borrow_data(), &[0, 0, 0xFF]);
    easy.add_data(&[0xFB, 0x90]);
    assert!(easy.skip_to_next_sync_word());
    assert_eq!(easy.borrow_data(), &[0xFF, 0xFB, 0x90]);
    // fewer than three bytes are all kept
    let mut easy = EasyMode::new();
    easy.add_data(&[1, 2]);
    assert!(!easy.skip_to_next_sync_word());
    assert_eq!(easy.buffer_used(), 2);
}

#[test]
fn sync_then_probe_caches_frame_info() {
    let mut easy = EasyMode::new();
    assert_eq!(easy.mp3_info(), None);
    easy.add_data(&[1, 2, 3, 0xFF, 0xFB, 0x90, 0x64]);
    assert!(easy.skip_to_next_sync_word());
    assert_eq!(easy.buffer_used(), 4);
    assert!(easy.wants_probe());
    let frame = frame_with_samples(1152);
    easy.record_probe(Ok(frame));
    assert!(!easy.wants_probe());
    assert_eq!(easy.mp3_info(), Some(frame));
    // already synchronised: nothing moves
    assert!(easy.skip_to_next_sync_word());
    assert_eq!(easy.buffer_used(), 4);
    assert!(!easy.wants_probe());
}

#[test]
fn failed_probe_caches_nothing() {
    let mut easy = EasyMode::new();
    easy.add_data(&[0xFF, 0xFB]);
    assert!(easy.skip_to_next_sync_word());
    easy.record_probe(Err(DecodeErr::InDataUnderflow));
    assert!(!easy.wants_probe());
    assert_eq!(easy.mp3_info(), None);
    // a probe outcome nobody asked for is ignored
    easy.record_probe(Ok(frame_with_samples(576)));
    assert_eq!(easy.mp3_info(), None);
}

#[test]
fn decode_ready_without_tag() {
    let mut easy = EasyMode::new();
    assert!(!easy.mp3_decode_ready());
    easy.add_data(&[0, 0, 0xFF, 0xF3, 0x44]);
    assert!(easy.mp3_decode_ready());
    assert_eq!(easy.buffer_used(), 3);
    assert!(easy.mp3_decode_ready());
}

#[test]
fn tag_longer_than_the_buffer_is_skipped_over_several_steps() {
    let mut easy = EasyMode::new();
    // a tag of 2000 payload bytes: 15 * 128 + 80
    let mut first = vec![0x49u8, 0x44, 0x33, 0x03, 0x00, 0x00, 0x00, 0x00, 15, 80];
    first.extend_from_slice(&[0u8; 990]);
    assert_eq!(easy.add_data(&first), 1000);
    assert!(!easy.mp3_decode_ready());
    assert_eq!(easy.buffer_used(), 0);
    // 1010 bytes of the tag are left
    easy.add_data(&[0u8; 1000]);
    assert!(!easy.mp3_decode_ready());
    assert_eq!(easy.buffer_used(), 0);
    let mut rest = vec![0u8; 10];
    rest.extend_from_slice(&[0xFF, 0xFB, 0x90]);
    easy.add_data(&rest);
    assert!(!easy.mp3_decode_ready());
    assert_eq!(easy.buffer_used(), 3);
    assert!(easy.mp3_decode_ready());
    assert_eq!(easy.borrow_data(), &[0xFF, 0xFB, 0x90]);
}

#[test]
fn check_decode_guards_the_output_buffer() {
    let frame = frame_with_samples(1152);
    assert_eq!(EasyMode::check_decode(Ok(frame), 1151), Err(EasyModeErr::AudioBufferTooSmall));
    assert_eq!(EasyMode::check_decode(Ok(frame), 1152), Ok(1152));
    assert_eq!(EasyMode::check_decode(Ok(frame), 2304), Ok(1152));
    assert_eq!(
        EasyMode::check_decode(Err(DecodeErr::InDataUnderflow), 2304),
        Err(EasyModeErr::InDataUnderflow)
    );
    assert_eq!(
        EasyMode::check_decode(Err(DecodeErr::InvalidHuffcodes), 0),
        Err(EasyModeErr::InvalidHuffcodes)
    );
}

#[test]
fn output_guard_leaves_state_unchanged() {
    let mut easy = EasyMode::new();
    easy.add_data(&[0, 0xFF, 0xFB, 0x90, 0x64, 1, 2, 3]);
    assert!(easy.mp3_decode_ready());
    let before = (easy.buffer_used(), easy.borrow_data().to_vec(), easy.mp3_info(), easy.wants_probe());
    assert_eq!(
        EasyMode::check_decode(Ok(frame_with_samples(1152)), 100),
        Err(EasyModeErr::AudioBufferTooSmall)
    );
    let after = (easy.buffer_used(), easy.borrow_data().to_vec(), easy.mp3_info(), easy.wants_probe());
    assert_eq!(before, after);
    assert!(easy.skip_to_next_sync_word());
}

#[test]
fn finish_decode_consumes_what_the_engine_used() {
    let mut easy = EasyMode::new();
    easy.add_data(&[0xFF, 0xFB, 0x90, 0x64, 1, 2, 3, 4, 5, 6]);
    assert!(easy.mp3_decode_ready());
    let frame = frame_with_samples(1152);
    assert_eq!(easy.finish_decode(frame, Ok(4)), Ok(1152));
    assert_eq!(easy.borrow_data(), &[3, 4, 5, 6]);
    assert_eq!(easy.mp3_info(), Some(frame));
}

#[test]
fn underflow_leaves_the_buffer_unmodified() {
    let mut easy = EasyMode::new();
    easy.add_data(&[0xFF, 0xFB, 0x90, 0x64, 1, 2]);
    assert!(easy.mp3_decode_ready());
    let before = easy.borrow_data().to_vec();
    assert_eq!(
        easy.finish_decode(frame_with_samples(1152), Err(DecodeErr::InDataUnderflow)),
        Err(EasyModeErr::InDataUnderflow)
    );
    assert_eq!(easy.borrow_data(), &before[..]);
    assert_eq!(easy.mp3_info(), None);
    assert_eq!(
        easy.finish_decode(frame_with_samples(1152), Err(DecodeErr::InvalidSideinfo)),
        Err(EasyModeErr::InvalidSideinfo)
    );
    assert_eq!(easy.borrow_data(), &before[..]);
    // more data, then the retry goes through
    easy.add_data(&[7, 8, 9]);
    assert_eq!(easy.finish_decode(frame_with_samples(576), Ok(0)), Ok(576));
    assert_eq!(easy.buffer_used(), 0);
}

#[test]
fn buffer_skip_is_clamped() {
    let mut easy = EasyMode::new();
    easy.add_data(&[1, 2, 3, 4, 5]);
    assert_eq!(easy.buffer_skip(2), 2);
    assert_eq!(easy.borrow_data(), &[3, 4, 5]);
    assert_eq!(easy.buffer_skip(10), 3);
    assert_eq!(easy.buffer_used(), 0);
    assert_eq!(easy.buffer_free(), 1024);
}
