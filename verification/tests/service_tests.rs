use id3::TagLike;

use music_player::service::{MusicOpenError, MusicService};
use music_player::track::CoverArtError;

/// A playable PCM WAV file of `seconds` seconds of silence (8 kHz, mono,
/// 16-bit).
fn wav_bytes(seconds: u32) -> Vec<u8> {
    let sample_rate: u32 = 8000;
    let data_len = seconds * sample_rate * 2;
    let mut v = Vec::new();
    v.extend_from_slice(b"RIFF");
    v.extend_from_slice(&(36 + data_len).to_le_bytes());
    v.extend_from_slice(b"WAVE");
    v.extend_from_slice(b"fmt ");
    v.extend_from_slice(&16u32.to_le_bytes());
    v.extend_from_slice(&1u16.to_le_bytes());
    v.extend_from_slice(&1u16.to_le_bytes());
    v.extend_from_slice(&sample_rate.to_le_bytes());
    v.extend_from_slice(&(sample_rate * 2).to_le_bytes());
    v.extend_from_slice(&2u16.to_le_bytes());
    v.extend_from_slice(&16u16.to_le_bytes());
    v.extend_from_slice(b"data");
    v.extend_from_slice(&data_len.to_le_bytes());
    v.resize(v.len() + data_len as usize, 0);
    v
}

/// The same WAV file with an `ID3 ` chunk appended, carrying the given tag
/// stream, so that the file both decodes as audio and yields a tag.
fn wav_with_tag(seconds: u32, tag: &[u8]) -> Vec<u8> {
    let mut v = wav_bytes(seconds);
    v.extend_from_slice(b"ID3 ");
    v.extend_from_slice(&(tag.len() as u32).to_le_bytes());
    v.extend_from_slice(tag);
    if tag.len() % 2 == 1 {
        v.push(0);
    }
    let riff_size = (v.len() - 8) as u32;
    v[4..8].copy_from_slice(&riff_size.to_le_bytes());
    v
}

/// A tag stream whose front cover holds `cover`.
fn tag_with_cover(cover: Option<Vec<u8>>) -> Vec<u8> {
    let mut tag = id3::Tag::new();
    tag.set_title("Covered");
    if let Some(data) = cover {
        tag.add_frame(id3::frame::Picture {
            mime_type: String::from("image/png"),
            picture_type: id3::frame::PictureType::CoverFront,
            description: String::from("front"),
            data,
        });
    }
    let mut out = Vec::new();
    tag.write_to(&mut out, id3::Version::Id3v24).expect("write tag");
    out
}

/// A one-pixel PNG, encoded by the image crate itself.
fn png_bytes() -> Vec<u8> {
    let img = image::DynamicImage::new_rgba8(1, 1);
    let mut out = std::io::Cursor::new(Vec::new());
    img.write_to(&mut out, image::ImageFormat::Png).expect("encode png");
    out.into_inner()
}

#[test]
fn open_supported_file_loads_music() {
    let mut s = MusicService::new();
    assert!(!s.is_music_loaded());
    let r = s.open(String::from("music/two.wav"), Some(wav_bytes(2)));
    assert!(r.is_ok());
    assert!(s.is_music_loaded());
    assert_eq!(s.get_total_duration(), Some(2));
    assert_eq!(s.get_pos(), Some(0));
}

#[test]
fn open_missing_file_fails_and_stays_unloaded() {
    let mut s = MusicService::new();
    let r = s.open(String::from("music/missing.mp3"), None);
    assert_eq!(r, Err(MusicOpenError::OpenErr));
    assert!(!s.is_music_loaded());
    assert_eq!(s.get_pos(), None);
    assert_eq!(s.get_total_duration(), None);
}

#[test]
fn open_failure_leaves_prior_playback_untouched() {
    let mut s = MusicService::new();
    s.open(String::from("music/two.wav"), Some(wav_bytes(2))).expect("open");
    s.set_pos(1);
    assert_eq!(s.open(String::from("music/gone.wav"), None), Err(MusicOpenError::OpenErr));
    assert_eq!(
        s.open(String::from("music/noise.bin"), Some(vec![7u8; 256])),
        Err(MusicOpenError::DecoderErr),
    );
    assert!(s.is_music_loaded());
    assert_eq!(s.get_pos(), Some(1));
    assert_eq!(s.get_total_duration(), Some(2));
    assert_eq!(s.music_file().name(), "two");
}

#[test]
fn open_undecodable_bytes_fails_with_decoder_err() {
    let mut s = MusicService::new();
    let r = s.open(String::from("music/noise.bin"), Some(vec![42u8; 1000]));
    assert_eq!(r, Err(MusicOpenError::DecoderErr));
    assert!(!s.is_music_loaded());
}

#[test]
fn a_bare_tag_stream_is_not_playable_audio() {
    let mut s = MusicService::new();
    let r = s.open(String::from("music/tagged.mp3"), Some(tag_with_cover(None)));
    assert_eq!(r, Err(MusicOpenError::DecoderErr));
    assert!(!s.is_music_loaded());
}

#[test]
fn scenario_three_minute_track() {
    let mut s = MusicService::new();
    let r = s.open(String::from("music/audio.mp3"), Some(wav_bytes(180)));
    assert!(r.is_ok());
    assert!(s.is_music_loaded());
    assert_eq!(s.get_total_duration(), Some(180));
    let before = s.get_pos();
    s.pause();
    s.resume();
    assert_eq!(s.get_pos(), before);
    s.set_pos(90);
    assert_eq!(s.get_pos(), Some(90));
}

#[test]
fn seek_then_read_is_exact_within_duration() {
    let mut s = MusicService::new();
    s.open(String::from("music/two.wav"), Some(wav_bytes(2))).expect("open");
    for p in 0..3u64 {
        s.set_pos(p);
        assert_eq!(s.get_pos(), Some(p));
    }
}

#[test]
fn seek_past_the_end_lands_on_the_end() {
    let mut s = MusicService::new();
    s.open(String::from("music/two.wav"), Some(wav_bytes(2))).expect("open");
    s.set_pos(1000);
    assert_eq!(s.get_pos(), Some(2));
}

#[test]
fn pause_resume_never_rewinds() {
    let mut s = MusicService::new();
    s.open(String::from("music/two.wav"), Some(wav_bytes(2))).expect("open");
    s.advance(1);
    assert_eq!(s.get_pos(), Some(1));
    s.pause();
    assert_eq!(s.get_pos(), Some(1));
    s.advance(1);
    assert_eq!(s.get_pos(), Some(1));
    s.resume();
    assert_eq!(s.get_pos(), Some(1));
    s.advance(5);
    assert_eq!(s.get_pos(), Some(2));
}

#[test]
fn stop_rewinds_to_the_start() {
    let mut s = MusicService::new();
    s.open(String::from("music/two.wav"), Some(wav_bytes(2))).expect("open");
    s.set_pos(1);
    s.stop();
    assert!(s.is_music_loaded());
    assert_eq!(s.get_pos(), Some(0));
}

#[test]
fn transport_is_a_no_op_with_nothing_loaded() {
    let mut s = MusicService::new();
    s.resume();
    s.pause();
    s.stop();
    s.set_pos(10);
    s.advance(10);
    assert!(!s.is_music_loaded());
    assert_eq!(s.get_pos(), None);
    assert_eq!(s.get_total_duration(), None);
}

#[test]
fn decode_image_without_tag_reports_no_tag() {
    let mut s = MusicService::new();
    s.open(String::from("music/two.wav"), Some(wav_bytes(2))).expect("open");
    assert!(matches!(s.decode_image(), Err(CoverArtError::NoTag)));
}

#[test]
fn decode_image_decodes_the_front_cover() {
    let mut s = MusicService::new();
    let data = wav_with_tag(2, &tag_with_cover(Some(png_bytes())));
    s.open(String::from("music/two.wav"), Some(data)).expect("open");
    assert_eq!(s.music_file().name(), "Covered");
    let img = s.decode_image().expect("decoded cover");
    assert_eq!(image::GenericImageView::dimensions(&img), (1, 1));
}

#[test]
fn decode_image_without_cover_reports_no_front_cover() {
    let mut s = MusicService::new();
    let data = wav_with_tag(2, &tag_with_cover(None));
    s.open(String::from("music/two.wav"), Some(data)).expect("open");
    assert!(matches!(s.decode_image(), Err(CoverArtError::NoFrontCover)));
}

#[test]
fn decode_image_with_bad_cover_bytes_fails() {
    let mut s = MusicService::new();
    let data = wav_with_tag(2, &tag_with_cover(Some(vec![1u8, 2, 3])));
    s.open(String::from("music/two.wav"), Some(data)).expect("open");
    assert!(matches!(s.decode_image(), Err(CoverArtError::DecodeFailed)));
}
