use music_player::music_path_entry_ui::DirListing;
use music_player::player::{FrameEvents, MusicPlayer};

fn wav_bytes(seconds: u32) -> Vec<u8> {
    let sample_rate: u32 = 8000;
    let data_len = seconds * sample_rate * 2;
    let mut v = Vec::new();
    v.extend_from_slice(b"RIFF");
    v.extend_from_slice(&(36 + data_len).to_le_bytes());
    v.extend_from_slice(b"WAVE");
    v.extend_from_slice(b"fmt ");
    v.extend_from_slice(&16u32.to_le_bytes());
    v.extend_from_slice(&1u16.to_le_bytes());
    v.extend_from_slice(&1u16.to_le_bytes());
    v.extend_from_slice(&sample_rate.to_le_bytes());
    v.extend_from_slice(&(sample_rate * 2).to_le_bytes());
    v.extend_from_slice(&2u16.to_le_bytes());
    v.extend_from_slice(&16u16.to_le_bytes());
    v.extend_from_slice(b"data");
    v.extend_from_slice(&data_len.to_le_bytes());
    v.resize(v.len() + data_len as usize, 0);
    v
}

fn idle_frame() -> FrameEvents {
    FrameEvents {
        elapsed_secs: 0,
        file_data: None,
        slider_dragged_to: None,
        play_clicked: false,
        pause_clicked: false,
        stop_clicked: false,
    }
}

#[test]
fn a_fresh_player_points_at_the_default_path() {
    let mut p = MusicPlayer::new();
    assert_eq!(p.pos(), 0);
    assert_eq!(p.total_duration(), None);
    assert!(!p.music_service().is_music_loaded());
    assert_eq!(p.music_path_entry_ui().dir_path().as_str(), "music/audio.mp3");
}

#[test]
fn an_idle_frame_changes_nothing() {
    let mut p = MusicPlayer::new();
    let r = p.update(idle_frame());
    assert!(r.is_none());
    assert!(!p.music_service().is_music_loaded());
    assert_eq!(p.pos(), 0);
    assert_eq!(p.total_duration(), None);
}

#[test]
fn a_consumed_load_request_opens_and_caches_the_duration() {
    let mut p = MusicPlayer::new();
    let ui = p.music_path_entry_ui();
    ui.set_dir_path(String::from("music"));
    ui.apply_listing(DirListing::Entries(vec![String::from("two.wav")]));
    ui.select(0);
    let mut e = idle_frame();
    e.file_data = Some(wav_bytes(2));
    let r = p.update(e);
    assert_eq!(r, Some(Ok(())));
    assert!(p.music_service().is_music_loaded());
    assert_eq!(p.total_duration(), Some(2));
    assert_eq!(p.pos(), 0);
    assert_eq!(p.music_service().music_file().name(), "two");
}

#[test]
fn a_slider_drag_seeks_and_a_still_frame_mirrors() {
    let mut p = MusicPlayer::new();
    let ui = p.music_path_entry_ui();
    ui.set_dir_path(String::from("music"));
    ui.apply_listing(DirListing::Entries(vec![String::from("two.wav")]));
    ui.select(0);
    let mut e = idle_frame();
    e.file_data = Some(wav_bytes(2));
    p.update(e);

    let mut drag = idle_frame();
    drag.slider_dragged_to = Some(1);
    p.update(drag);
    assert_eq!(p.pos(), 1);
    assert_eq!(p.music_service().get_pos(), Some(1));

    p.update(idle_frame());
    assert_eq!(p.pos(), 1);
}

#[test]
fn transport_clicks_reach_the_service() {
    let mut p = MusicPlayer::new();
    let ui = p.music_path_entry_ui();
    ui.apply_listing(DirListing::Entries(vec![String::from("two.wav")]));
    ui.select(0);
    let mut e = idle_frame();
    e.file_data = Some(wav_bytes(2));
    p.update(e);

    let mut drag = idle_frame();
    drag.slider_dragged_to = Some(1);
    p.update(drag);

    let mut stop = idle_frame();
    stop.stop_clicked = true;
    p.update(stop);
    assert_eq!(p.music_service().get_pos(), Some(0));

    let mut play = idle_frame();
    play.play_clicked = true;
    let r = p.update(play);
    assert!(r.is_none());
    assert!(p.music_service().is_music_loaded());
}

#[test]
fn wall_time_moves_a_playing_sink_forward() {
    let mut p = MusicPlayer::new();
    let ui = p.music_path_entry_ui();
    ui.set_dir_path(String::from("music"));
    ui.apply_listing(DirListing::Entries(vec![String::from("two.wav")]));
    ui.select(0);
    let mut e = idle_frame();
    e.file_data = Some(wav_bytes(2));
    p.update(e);

    let mut tick = idle_frame();
    tick.elapsed_secs = 1;
    p.update(tick);
    assert_eq!(p.pos(), 1);

    let mut pause = idle_frame();
    pause.pause_clicked = true;
    p.update(pause);
    let mut tick2 = idle_frame();
    tick2.elapsed_secs = 5;
    p.update(tick2);
    assert_eq!(p.pos(), 1);
    assert_eq!(p.music_service().get_pos(), Some(1));
}

#[test]
fn an_unreadable_file_reports_open_err_and_loads_nothing() {
    let mut p = MusicPlayer::new();
    let ui = p.music_path_entry_ui();
    ui.apply_listing(DirListing::Entries(vec![String::from("gone.wav")]));
    ui.select(0);
    let r = p.update(idle_frame());
    assert!(matches!(
        r,
        Some(Err(music_player::service::MusicOpenError::OpenErr))
    ));
    assert!(!p.music_service().is_music_loaded());
}
