use music_player::config::{is_music_file, Config, KeyBinding, RawKey};
use music_player::music_player::{
    filter_music_entries, map_key, Action, Command, ExplorerEntry, MusicPlayer,
};
use music_player::play_controller::PlayStatus;

fn entry(name: &str, path: &str, is_dir: bool) -> ExplorerEntry {
    ExplorerEntry { name: name.to_string(), path: path.to_string(), is_dir }
}

fn fresh_session() -> MusicPlayer {
    MusicPlayer::new(Config::default(), "/music".to_string())
}

#[test]
fn config_default_fresh_time() {
    let c = Config::default();
    assert_eq!(c.fresh_time, 100);
}

#[test]
fn key_table_maps_every_binding() {
    assert_eq!(map_key(KeyBinding::Raw(RawKey::Up)), Command::ExplorerUp);
    assert_eq!(map_key(KeyBinding::Raw(RawKey::Down)), Command::ExplorerDown);
    assert_eq!(map_key(KeyBinding::Raw(RawKey::Left)), Command::VolumeDown);
    assert_eq!(map_key(KeyBinding::Raw(RawKey::Right)), Command::VolumeUp);
    assert_eq!(map_key(KeyBinding::Raw(RawKey::Char(' '))), Command::TogglePlayPause);
    assert_eq!(map_key(KeyBinding::Raw(RawKey::Char('s'))), Command::StageSelectedForPlay);
    assert_eq!(map_key(KeyBinding::Raw(RawKey::Char('c'))), Command::ClearPlaylist);
    assert_eq!(map_key(KeyBinding::Raw(RawKey::Char('n'))), Command::NextTrack);
    assert_eq!(map_key(KeyBinding::Raw(RawKey::Char('q'))), Command::Quit);
    assert_eq!(map_key(KeyBinding::Raw(RawKey::Enter)), Command::ActivateSelection);
    assert_eq!(map_key(KeyBinding::Shift(RawKey::Up)), Command::PlaylistUp);
    assert_eq!(map_key(KeyBinding::Shift(RawKey::Down)), Command::PlaylistDown);
    // everything else is unsupported and silently ignored
    assert_eq!(map_key(KeyBinding::Raw(RawKey::Char('x'))), Command::Unsupported);
    assert_eq!(map_key(KeyBinding::Raw(RawKey::Esc)), Command::Unsupported);
    assert_eq!(map_key(KeyBinding::Shift(RawKey::Left)), Command::Unsupported);
    assert_eq!(map_key(KeyBinding::Ctrl(RawKey::Up)), Command::Unsupported);
    assert_eq!(map_key(KeyBinding::F(1)), Command::Unsupported);
    assert_eq!(map_key(KeyBinding::Unsupported), Command::Unsupported);
}

#[test]
fn music_file_extension_is_exact_and_case_sensitive() {
    assert!(is_music_file("a.mp3"));
    assert!(is_music_file("a.wav"));
    assert!(is_music_file("a.flac"));
    assert!(is_music_file("a.ts"));
    assert!(is_music_file("x.mp3.mp3"));
    assert!(!is_music_file(".mp3"));
    assert!(!is_music_file("a.MP3"));
    assert!(!is_music_file("notes.txt"));
    assert!(!is_music_file("mp3"));
    assert!(!is_music_file("x.mp3.txt"));
    assert!(!is_music_file(""));
}

#[test]
fn listing_keeps_directories_and_audio_files() {
    let raw = vec![
        entry("Album", "/music/Album", true),
        entry("track1.mp3", "/music/track1.mp3", false),
        entry("notes.txt", "/music/notes.txt", false),
    ];
    let kept = filter_music_entries(&raw);
    assert_eq!(kept.len(), 2);
    assert_eq!(kept[0].name, "Album");
    assert_eq!(kept[1].name, "track1.mp3");

    let mut m = fresh_session();
    m.set_directory("/music".to_string(), raw);
    assert_eq!(m.explorer_list.len(), 2);
    assert_eq!(m.explorer_index, 0);
    assert_eq!(m.current_dir, "/music");
}

#[test]
fn explorer_cursor_cycles_through_go_up_and_entries() {
    let mut m = fresh_session();
    m.set_directory(
        "/music".to_string(),
        vec![entry("a.mp3", "/music/a.mp3", false), entry("b.mp3", "/music/b.mp3", false)],
    );
    assert_eq!(m.explorer_index, 0);
    m.explorer_up();
    assert_eq!(m.explorer_index, 2);
    m.explorer_down();
    assert_eq!(m.explorer_index, 0);
    m.explorer_down();
    assert_eq!(m.explorer_index, 1);
    m.explorer_down();
    assert_eq!(m.explorer_index, 2);
    m.explorer_down();
    assert_eq!(m.explorer_index, 0);
    m.explorer_up();
    m.explorer_up();
    m.explorer_up();
    assert_eq!(m.explorer_index, 0);
}

#[test]
fn playlist_cursor_is_cyclic_of_playlist_length() {
    let mut m = fresh_session();
    for t in ["a", "b", "c"] {
        m.player.play_list.push((t.to_string(), format!("/{t}")));
    }
    m.player.playlist_index = 1;
    for _ in 0..3 {
        m.playerlist_up();
    }
    assert_eq!(m.player.playlist_index, 1);
    for _ in 0..3 {
        m.playerlist_down();
    }
    assert_eq!(m.player.playlist_index, 1);
    m.playerlist_up();
    assert_eq!(m.player.playlist_index, 0);
    m.playerlist_up();
    assert_eq!(m.player.playlist_index, 2);
}

#[test]
fn playlist_cursor_on_empty_playlist_is_a_noop() {
    let mut m = fresh_session();
    m.playerlist_up();
    assert_eq!(m.player.playlist_index, 0);
    m.playerlist_down();
    assert_eq!(m.player.playlist_index, 0);
}

#[test]
fn next_track_on_empty_playlist_is_silent() {
    let mut m = fresh_session();
    let a = m.process_key(KeyBinding::Raw(RawKey::Char('n')), 0);
    assert_eq!(a, Action::Idle);
    assert_eq!(m.player.playlist_index, 0);
    assert!(m.player.playing_song.is_none());
    assert_eq!(m.player.status, PlayStatus::Waiting);
    assert!(!m.quit);
}

#[test]
fn quit_key_sets_the_flag() {
    let mut m = fresh_session();
    let a = m.process_key(KeyBinding::Raw(RawKey::Char('q')), 0);
    assert_eq!(a, Action::Idle);
    assert!(m.quit);
}

#[test]
fn enter_dispatches_on_the_selection() {
    let mut m = fresh_session();
    m.set_directory(
        "/music".to_string(),
        vec![entry("Album", "/music/Album", true), entry("a.mp3", "/music/a.mp3", false)],
    );
    // cursor 0 is the reserved go-up entry
    let a = m.process_key(KeyBinding::Raw(RawKey::Enter), 0);
    assert_eq!(a, Action::GoUp);
    // cursor 1 selects the directory
    m.explorer_down();
    let a = m.process_key(KeyBinding::Raw(RawKey::Enter), 0);
    assert_eq!(a, Action::EnterDirectory("/music/Album".to_string()));
    // cursor 2 selects the audio file: it joins the playlist
    m.explorer_down();
    let a = m.process_key(KeyBinding::Raw(RawKey::Enter), 0);
    assert_eq!(a, Action::Idle);
    assert_eq!(m.player.play_list, vec![("a.mp3".to_string(), "/music/a.mp3".to_string())]);
}

#[test]
fn stage_key_selects_the_cursor_track() {
    let mut m = fresh_session();
    let a = m.process_key(KeyBinding::Raw(RawKey::Char('s')), 0);
    assert_eq!(a, Action::Idle);
    m.player.play_list.push(("a".to_string(), "/a".to_string()));
    m.player.play_list.push(("b".to_string(), "/b".to_string()));
    m.player.playlist_index = 1;
    let a = m.process_key(KeyBinding::Raw(RawKey::Char('s')), 0);
    assert_eq!(a, Action::StartTrack("/b".to_string()));
    assert_eq!(m.player.playing_song, Some("b".to_string()));
}

#[test]
fn clear_key_empties_the_playlist() {
    let mut m = fresh_session();
    m.player.play_list.push(("a".to_string(), "/a".to_string()));
    m.player.playing_song = Some("a".to_string());
    let a = m.process_key(KeyBinding::Raw(RawKey::Char('c')), 0);
    assert_eq!(a, Action::Idle);
    assert!(m.player.play_list.is_empty());
    assert!(m.player.playing_song.is_none());
    assert_eq!(m.player.playlist_index, 0);
}

#[test]
fn space_toggles_between_pause_and_resume() {
    let mut m = fresh_session();
    // with no live track, space does nothing
    let a = m.process_key(KeyBinding::Raw(RawKey::Char(' ')), 0);
    assert_eq!(a, Action::Idle);
    assert_eq!(m.player.status, PlayStatus::Waiting);
    assert!(m.player.play_song(Some(10_000), 1_000));
    m.process_key(KeyBinding::Raw(RawKey::Char(' ')), 2_000);
    assert_eq!(m.player.status, PlayStatus::Paused(1_000, 2_000, 0));
    assert!(!m.player.is_playing);
    m.process_key(KeyBinding::Raw(RawKey::Char(' ')), 5_000);
    assert_eq!(m.player.status, PlayStatus::Playing(1_000, 3_000));
    assert!(m.player.is_playing);
}

#[test]
fn volume_keys_step_and_clamp() {
    let mut m = fresh_session();
    let a = m.process_key(KeyBinding::Raw(RawKey::Right), 0);
    assert_eq!(a, Action::Idle);
    assert_eq!(m.player.volume, 100);
    m.process_key(KeyBinding::Raw(RawKey::Left), 0);
    assert_eq!(m.player.volume, 99);
    for _ in 0..200 {
        m.process_key(KeyBinding::Raw(RawKey::Left), 0);
    }
    assert_eq!(m.player.volume, 0);
    m.process_key(KeyBinding::Raw(RawKey::Right), 0);
    assert_eq!(m.player.volume, 1);
}

#[test]
fn unsupported_key_changes_nothing() {
    let mut m = fresh_session();
    m.player.play_list.push(("a".to_string(), "/a".to_string()));
    let a = m.process_key(KeyBinding::Raw(RawKey::Char('z')), 0);
    assert_eq!(a, Action::Idle);
    assert!(!m.quit);
    assert_eq!(m.explorer_index, 0);
    assert_eq!(m.player.play_list.len(), 1);
    assert_eq!(m.player.status, PlayStatus::Waiting);
}

#[test]
fn shift_up_and_down_move_the_playlist_cursor() {
    let mut m = fresh_session();
    for t in ["a", "b"] {
        m.player.play_list.push((t.to_string(), format!("/{t}")));
    }
    m.process_key(KeyBinding::Shift(RawKey::Down), 0);
    assert_eq!(m.player.playlist_index, 1);
    m.process_key(KeyBinding::Shift(RawKey::Down), 0);
    assert_eq!(m.player.playlist_index, 0);
    m.process_key(KeyBinding::Shift(RawKey::Up), 0);
    assert_eq!(m.player.playlist_index, 1);
}
