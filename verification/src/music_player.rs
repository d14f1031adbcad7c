//! The session model: the current directory's filtered listing, the
//! explorer cursor, the key-to-command table, and the dispatch of each
//! command onto the play controller.
//!
//! Directory reads, key polling, drawing and audio output live outside.
//! The caller hands in raw listings and logical key presses; the dispatch
//! hands back an [`Action`] naming whatever outside work must follow.

use vstd::prelude::*;
use crate::config::{Config, KeyBinding, RawKey, is_music_file, is_music_name};
use crate::cursor::{cursor_down, cursor_up, wrap_dec, wrap_inc};
use crate::play_controller::{
    PlayController, is_active, status_after_pause, status_after_play, time_floor,
};

verus! {

/// One directory child as the explorer shows it: display name, full path,
/// and whether it is a directory (captured when the listing was made).
pub struct ExplorerEntry {
    pub name: String,
    pub path: String,
    pub is_dir: bool,
}

/// A logical command: the meaning of one key press.
#[derive(Debug, Copy, Clone, PartialEq, Eq)]
pub enum Command {
    ExplorerUp,
    ExplorerDown,
    VolumeDown,
    VolumeUp,
    TogglePlayPause,
    StageSelectedForPlay,
    ClearPlaylist,
    NextTrack,
    Quit,
    ActivateSelection,
    PlaylistUp,
    PlaylistDown,
    Unsupported,
}

/// The outside work a dispatch asks its caller for: nothing, start
/// streaming the track at a path, list and enter a directory, or move to
/// the parent directory and list it.
#[derive(Debug, Clone, PartialEq, Eq)]
pub enum Action {
    Idle,
    StartTrack(String),
    EnterDirectory(String),
    GoUp,
}

/// The key-to-command table. Plain `Up`/`Down` move the explorer,
/// `Left`/`Right` step the volume, space toggles pause, `s` stages the
/// selected playlist entry, `c` clears the playlist, `n` skips ahead,
/// `q` quits, enter activates the explorer selection, and `Shift+Up`/
/// `Shift+Down` move the playlist cursor. Everything else is
/// `Unsupported`.
pub open spec fn spec_map_key(key: KeyBinding) -> Command {
    match key {
        KeyBinding::Raw(k) => match k {
            RawKey::Up => Command::ExplorerUp,
            RawKey::Down => Command::ExplorerDown,
            RawKey::Left => Command::VolumeDown,
            RawKey::Right => Command::VolumeUp,
            RawKey::Enter => Command::ActivateSelection,
            RawKey::Char(c) => if c == ' ' {
                Command::TogglePlayPause
            } else if c == 's' {
                Command::StageSelectedForPlay
            } else if c == 'c' {
                Command::ClearPlaylist
            } else if c == 'n' {
                Command::NextTrack
            } else if c == 'q' {
                Command::Quit
            } else {
                Command::Unsupported
            },
            _ => Command::Unsupported,
        },
        KeyBinding::Shift(k) => match k {
            RawKey::Up => Command::PlaylistUp,
            RawKey::Down => Command::PlaylistDown,
            _ => Command::Unsupported,
        },
        _ => Command::Unsupported,
    }
}

/// Translates one key press into its command; total, never fails.
pub fn map_key(key: KeyBinding) -> (c: Command)
    ensures
        c == spec_map_key(key),
{
    match key {
        KeyBinding::Raw(k) => match k {
            RawKey::Up => Command::ExplorerUp,
            RawKey::Down => Command::ExplorerDown,
            RawKey::Left => Command::VolumeDown,
            RawKey::Right => Command::VolumeUp,
            RawKey::Enter => Command::ActivateSelection,
            RawKey::Char(c) => if c == ' ' {
                Command::TogglePlayPause
            } else if c == 's' {
                Command::StageSelectedForPlay
            } else if c == 'c' {
                Command::ClearPlaylist
            } else if c == 'n' {
                Command::NextTrack
            } else if c == 'q' {
                Command::Quit
            } else {
                Command::Unsupported
            },
            _ => Command::Unsupported,
        },
        KeyBinding::Shift(k) => match k {
            RawKey::Up => Command::PlaylistUp,
            RawKey::Down => Command::PlaylistDown,
            _ => Command::Unsupported,
        },
        _ => Command::Unsupported,
    }
}

/// A listing keeps a child iff it is a directory or a recognized audio
/// file.
pub open spec fn keep_entry(e: ExplorerEntry) -> bool {
    e.is_dir || is_music_name(e.name@)
}

/// The kept part of a raw listing, in listing order.
pub open spec fn spec_filter_entries(s: Seq<ExplorerEntry>) -> Seq<ExplorerEntry>
    decreases s.len(),
{
    if s.len() == 0 {
        Seq::empty()
    } else if keep_entry(s.last()) {
        spec_filter_entries(s.drop_last()).push(s.last())
    } else {
        spec_filter_entries(s.drop_last())
    }
}

/// Keeps the sub-directories and the recognized audio files of a raw
/// directory listing, in listing order.
pub fn filter_music_entries(entries: &Vec<ExplorerEntry>) -> (out: Vec<ExplorerEntry>)
    ensures
        out@ == spec_filter_entries(entries@),
{
    let mut out: Vec<ExplorerEntry> = Vec::new();
    let mut i: usize = 0;
    while i < entries.len()
        invariant
            i <= entries.len(),
            out@ == spec_filter_entries(entries@.take(i as int)),
        decreases entries.len() - i,
    {
        proof {
            assert(entries@.take(i as int + 1).drop_last() =~= entries@.take(i as int));
            assert(entries@.take(i as int + 1).last() == entries@[i as int]);
        }
        let e = &entries[i];
        if e.is_dir || is_music_file(e.name.as_str()) {
            let kept = ExplorerEntry { name: e.name.clone(), path: e.path.clone(), is_dir: e.is_dir };
            proof {
                assert(kept == entries@[i as int]);
            }
            out.push(kept);
        }
        i = i + 1;
    }
    proof {
        assert(entries@.take(entries@.len() as int) =~= entries@);
    }
    out
}

/// Equal session fields outside the player.
pub open spec fn nav_eq(a: MusicPlayer, b: MusicPlayer) -> bool {
    &&& a.config == b.config
    &&& a.current_dir == b.current_dir
    &&& a.explorer_list == b.explorer_list
    &&& a.explorer_index == b.explorer_index
    &&& a.quit == b.quit
}

/// Equal session fields outside the explorer cursor.
pub open spec fn session_eq_but_explorer(a: MusicPlayer, b: MusicPlayer) -> bool {
    &&& a.config == b.config
    &&& a.current_dir == b.current_dir
    &&& a.explorer_list == b.explorer_list
    &&& a.quit == b.quit
    &&& a.player == b.player
}

/// Equal playback state outside the volume.
pub open spec fn player_eq_but_volume(a: PlayController, b: PlayController) -> bool {
    &&& a.current_time == b.current_time
    &&& a.total_time == b.total_time
    &&& a.status == b.status
    &&& a.playing_song == b.playing_song
    &&& a.play_list == b.play_list
    &&& a.playlist_index == b.playlist_index
    &&& a.is_playing == b.is_playing
}

/// Equal playback state outside the status and the playing flag.
pub open spec fn player_eq_but_flags(a: PlayController, b: PlayController) -> bool {
    &&& a.volume == b.volume
    &&& a.current_time == b.current_time
    &&& a.total_time == b.total_time
    &&& a.playing_song == b.playing_song
    &&& a.play_list == b.play_list
    &&& a.playlist_index == b.playlist_index
}

/// Equal playback state outside the playlist cursor and the selected song.
pub open spec fn player_eq_but_selection(a: PlayController, b: PlayController) -> bool {
    &&& a.volume == b.volume
    &&& a.current_time == b.current_time
    &&& a.total_time == b.total_time
    &&& a.status == b.status
    &&& a.play_list == b.play_list
    &&& a.is_playing == b.is_playing
}

/// The session: configuration, the play controller, the current directory
/// and its filtered listing, the explorer cursor, and the quit flag.
pub struct MusicPlayer {
    pub config: Config,
    pub player: PlayController,
    /// The directory whose listing the explorer shows.
    pub current_dir: String,
    /// The filtered listing of `current_dir`.
    pub explorer_list: Vec<ExplorerEntry>,
    /// Explorer cursor over `0 ..= explorer_list.len()`: `0` is the
    /// reserved go-up entry, `i + 1` selects entry `i`.
    pub explorer_index: usize,
    pub quit: bool,
}

impl MusicPlayer {
    /// Every reachable session state: the player is well formed and the
    /// explorer cursor stays within `0 ..= explorer_list.len()`.
    pub open spec fn wf(&self) -> bool {
        &&& self.player.wf()
        &&& self.explorer_index <= self.explorer_list.len()
    }

    /// A fresh session over a starting directory, before its listing is
    /// handed in through `set_directory`.
    pub fn new(config: Config, current_dir: String) -> (m: MusicPlayer)
        ensures
            m.wf(),
            m.config == config,
            m.current_dir == current_dir,
            m.explorer_list@ == Seq::<ExplorerEntry>::empty(),
            m.explorer_index == 0,
            !m.quit,
            m.player.volume == 100,
            m.player.current_time == 0,
            m.player.total_time == 0,
            m.player.status is Waiting,
            m.player.playing_song is None,
            m.player.play_list@ == Seq::<(String, String)>::empty(),
            m.player.playlist_index == 0,
            !m.player.is_playing,
    {
        MusicPlayer {
            config,
            player: PlayController::new(),
            current_dir,
            explorer_list: Vec::new(),
            explorer_index: 0,
            quit: false,
        }
    }

    /// Installs a directory and its raw listing: the listing is filtered
    /// to sub-directories and recognized audio files, and the explorer
    /// cursor returns to the go-up entry. The playlist and the playback
    /// state are untouched.
    pub fn set_directory(&mut self, dir: String, entries: Vec<ExplorerEntry>)
        requires
            old(self).wf(),
        ensures
            final(self).wf(),
            final(self).current_dir == dir,
            final(self).explorer_list@ == spec_filter_entries(entries@),
            final(self).explorer_index == 0,
            final(self).config == old(self).config,
            final(self).player == old(self).player,
            final(self).quit == old(self).quit,
    {
        self.current_dir = dir;
        self.explorer_list = filter_music_entries(&entries);
        self.explorer_index = 0;
    }

    /// Explorer cursor one step up; from the go-up entry it wraps to the
    /// listing's last entry.
    pub fn explorer_up(&mut self)
        requires
            old(self).wf(),
        ensures
            final(self).wf(),
            final(self).explorer_index == cursor_up(
                old(self).explorer_index as int,
                old(self).explorer_list.len() as int,
            ),
            session_eq_but_explorer(*old(self), *final(self)),
    {
        if self.explorer_index == 0 {
            self.explorer_index = self.explorer_list.len();
        } else {
            self.explorer_index = self.explorer_index - 1;
        }
    }

    /// Explorer cursor one step down; from the listing's last entry it
    /// wraps to the go-up entry.
    pub fn explorer_down(&mut self)
        requires
            old(self).wf(),
        ensures
            final(self).wf(),
            final(self).explorer_index == cursor_down(
                old(self).explorer_index as int,
                old(self).explorer_list.len() as int,
            ),
            session_eq_but_explorer(*old(self), *final(self)),
    {
        if self.explorer_index == self.explorer_list.len() {
            self.explorer_index = 0;
        } else {
            self.explorer_index = self.explorer_index + 1;
        }
    }

    /// Playlist cursor one step back with wraparound; an empty playlist
    /// is left untouched, never faulted on.
    pub fn playerlist_up(&mut self)
        requires
            old(self).wf(),
        ensures
            final(self).wf(),
            old(self).player.play_list.len() == 0 ==> *final(self) == *old(self),
            old(self).player.play_list.len() > 0 ==> {
                &&& final(self).player.playlist_index == wrap_dec(
                    old(self).player.playlist_index as int,
                    old(self).player.play_list.len() as int,
                )
                &&& player_eq_but_selection(old(self).player, final(self).player)
                &&& final(self).player.playing_song == old(self).player.playing_song
                &&& nav_eq(*old(self), *final(self))
            },
    {
        if self.player.play_list.len() == 0 {
            return;
        }
        if self.player.playlist_index == 0 {
            self.player.playlist_index = self.player.play_list.len() - 1;
        } else {
            self.player.playlist_index = self.player.playlist_index - 1;
        }
    }

    /// Playlist cursor one step forward with wraparound; an empty
    /// playlist is left untouched, never faulted on.
    pub fn playerlist_down(&mut self)
        requires
            old(self).wf(),
        ensures
            final(self).wf(),
            old(self).player.play_list.len() == 0 ==> *final(self) == *old(self),
            old(self).player.play_list.len() > 0 ==> {
                &&& final(self).player.playlist_index == wrap_inc(
                    old(self).player.playlist_index as int,
                    old(self).player.play_list.len() as int,
                )
                &&& player_eq_but_selection(old(self).player, final(self).player)
                &&& final(self).player.playing_song == old(self).player.playing_song
                &&& nav_eq(*old(self), *final(self))
            },
    {
        if self.player.play_list.len() == 0 {
            return;
        }
        if self.player.playlist_index == self.player.play_list.len() - 1 {
            self.player.playlist_index = 0;
        } else {
            self.player.playlist_index = self.player.playlist_index + 1;
        }
    }

    /// Dispatches one key press at clock reading `now_ms`: maps it to its
    /// command, applies the command to the session, and names the outside
    /// work (if any) the caller must now do. Unsupported keys change
    /// nothing; no key press ever faults.
    pub fn process_key(&mut self, key: KeyBinding, now_ms: u64) -> (action: Action)
        requires
            old(self).wf(),
            now_ms >= time_floor(old(self).player.status),
        ensures
            final(self).wf(),
            time_floor(final(self).player.status) <= now_ms,
            spec_map_key(key) == Command::ExplorerUp ==> {
                &&& action == Action::Idle
                &&& final(self).explorer_index == cursor_up(
                    old(self).explorer_index as int,
                    old(self).explorer_list.len() as int,
                )
                &&& session_eq_but_explorer(*old(self), *final(self))
            },
            spec_map_key(key) == Command::ExplorerDown ==> {
                &&& action == Action::Idle
                &&& final(self).explorer_index == cursor_down(
                    old(self).explorer_index as int,
                    old(self).explorer_list.len() as int,
                )
                &&& session_eq_but_explorer(*old(self), *final(self))
            },
            spec_map_key(key) == Command::VolumeDown ==> {
                &&& action == Action::Idle
                &&& nav_eq(*old(self), *final(self))
                &&& final(self).player.volume == if old(self).player.volume > 0 {
                    old(self).player.volume - 1
                } else {
                    0int
                }
                &&& player_eq_but_volume(old(self).player, final(self).player)
            },
            spec_map_key(key) == Command::VolumeUp ==> {
                &&& action == Action::Idle
                &&& nav_eq(*old(self), *final(self))
                &&& final(self).player.volume == if old(self).player.volume < 100 {
                    old(self).player.volume + 1
                } else {
                    old(self).player.volume as int
                }
                &&& player_eq_but_volume(old(self).player, final(self).player)
            },
            spec_map_key(key) == Command::TogglePlayPause ==> {
                &&& action == Action::Idle
                &&& nav_eq(*old(self), *final(self))
                &&& (if is_active(old(self).player) && old(self).player.is_playing {
                    &&& final(self).player.status == status_after_pause(
                        old(self).player.status,
                        now_ms,
                    )
                    &&& !final(self).player.is_playing
                    &&& player_eq_but_flags(old(self).player, final(self).player)
                } else if is_active(old(self).player) && !old(self).player.is_playing {
                    &&& final(self).player.status == status_after_play(
                        old(self).player.status,
                        now_ms,
                    )
                    &&& final(self).player.is_playing
                    &&& player_eq_but_flags(old(self).player, final(self).player)
                } else {
                    final(self).player == old(self).player
                })
            },
            spec_map_key(key) == Command::StageSelectedForPlay ==> {
                &&& nav_eq(*old(self), *final(self))
                &&& (old(self).player.play_list.len() == 0 ==> final(self).player == old(
                    self,
                ).player && action == Action::Idle)
                &&& (old(self).player.play_list.len() > 0 ==> {
                    &&& final(self).player.playing_song == Some(
                        old(self).player.play_list@[old(self).player.playlist_index as int].0,
                    )
                    &&& final(self).player.playlist_index == old(self).player.playlist_index
                    &&& player_eq_but_selection(old(self).player, final(self).player)
                    &&& action == Action::StartTrack(
                        old(self).player.play_list@[old(self).player.playlist_index as int].1,
                    )
                })
            },
            spec_map_key(key) == Command::ClearPlaylist ==> {
                &&& action == Action::Idle
                &&& nav_eq(*old(self), *final(self))
                &&& final(self).player.play_list@ == Seq::<(String, String)>::empty()
                &&& final(self).player.playing_song is None
                &&& final(self).player.playlist_index == 0
                &&& final(self).player.volume == old(self).player.volume
                &&& final(self).player.current_time == old(self).player.current_time
                &&& final(self).player.total_time == old(self).player.total_time
                &&& final(self).player.status == old(self).player.status
                &&& final(self).player.is_playing == old(self).player.is_playing
            },
            spec_map_key(key) == Command::NextTrack ==> {
                &&& nav_eq(*old(self), *final(self))
                &&& (old(self).player.play_list.len() == 0 ==> final(self).player == old(
                    self,
                ).player && action == Action::Idle)
                &&& (old(self).player.play_list.len() > 0 ==> {
                    &&& final(self).player.playlist_index == wrap_inc(
                        old(self).player.playlist_index as int,
                        old(self).player.play_list.len() as int,
                    )
                    &&& final(self).player.playing_song == Some(
                        old(self).player.play_list@[final(self).player.playlist_index as int].0,
                    )
                    &&& player_eq_but_selection(old(self).player, final(self).player)
                    &&& action == Action::StartTrack(
                        old(self).player.play_list@[final(self).player.playlist_index as int].1,
                    )
                })
            },
            spec_map_key(key) == Command::Quit ==> {
                &&& action == Action::Idle
                &&& final(self).quit
                &&& final(self).config == old(self).config
                &&& final(self).current_dir == old(self).current_dir
                &&& final(self).explorer_list == old(self).explorer_list
                &&& final(self).explorer_index == old(self).explorer_index
                &&& final(self).player == old(self).player
            },
            spec_map_key(key) == Command::ActivateSelection ==> {
                &&& (old(self).explorer_index == 0 ==> *final(self) == *old(self) && action
                    == Action::GoUp)
                &&& (old(self).explorer_index > 0 && old(self).explorer_list@[old(
                    self,
                ).explorer_index - 1].is_dir ==> *final(self) == *old(self) && action
                    == Action::EnterDirectory(
                    old(self).explorer_list@[old(self).explorer_index - 1].path,
                ))
                &&& (old(self).explorer_index > 0 && !old(self).explorer_list@[old(
                    self,
                ).explorer_index - 1].is_dir ==> {
                    &&& nav_eq(*old(self), *final(self))
                    &&& final(self).player.play_list@ == old(self).player.play_list@.push(
                        (
                            old(self).explorer_list@[old(self).explorer_index - 1].name,
                            old(self).explorer_list@[old(self).explorer_index - 1].path,
                        ),
                    )
                    &&& final(self).player.playlist_index == old(self).player.playlist_index
                    &&& final(self).player.playing_song == old(self).player.playing_song
                    &&& final(self).player.volume == old(self).player.volume
                    &&& final(self).player.current_time == old(self).player.current_time
                    &&& final(self).player.total_time == old(self).player.total_time
                    &&& final(self).player.status == old(self).player.status
                    &&& final(self).player.is_playing == old(self).player.is_playing
                    &&& action == Action::Idle
                })
            },
            spec_map_key(key) == Command::PlaylistUp ==> {
                &&& action == Action::Idle
                &&& (old(self).player.play_list.len() == 0 ==> *final(self) == *old(self))
                &&& (old(self).player.play_list.len() > 0 ==> {
                    &&& final(self).player.playlist_index == wrap_dec(
                        old(self).player.playlist_index as int,
                        old(self).player.play_list.len() as int,
                    )
                    &&& player_eq_but_selection(old(self).player, final(self).player)
                    &&& final(self).player.playing_song == old(self).player.playing_song
                    &&& nav_eq(*old(self), *final(self))
                })
            },
            spec_map_key(key) == Command::PlaylistDown ==> {
                &&& action == Action::Idle
                &&& (old(self).player.play_list.len() == 0 ==> *final(self) == *old(self))
                &&& (old(self).player.play_list.len() > 0 ==> {
                    &&& final(self).player.playlist_index == wrap_inc(
                        old(self).player.playlist_index as int,
                        old(self).player.play_list.len() as int,
                    )
                    &&& player_eq_but_selection(old(self).player, final(self).player)
                    &&& final(self).player.playing_song == old(self).player.playing_song
                    &&& nav_eq(*old(self), *final(self))
                })
            },
            spec_map_key(key) == Command::Unsupported ==> *final(self) == *old(self) && action
                == Action::Idle,
    {
        let cmd = map_key(key);
        match cmd {
            Command::ExplorerUp => {
                self.explorer_up();
                Action::Idle
            },
            Command::ExplorerDown => {
                self.explorer_down();
                Action::Idle
            },
            Command::VolumeDown => {
                self.player.dec_vol();
                Action::Idle
            },
            Command::VolumeUp => {
                self.player.inc_vol();
                Action::Idle
            },
            Command::TogglePlayPause => {
                if self.player.is_playing_or_paused() {
                    if self.player.is_playing {
                        self.player.pause(now_ms);
                    } else {
                        self.player.play(now_ms);
                    }
                }
                Action::Idle
            },
            Command::StageSelectedForPlay => {
                if self.player.play_list.len() > 0 {
                    let name = self.player.play_list[self.player.playlist_index].0.clone();
                    let path = self.player.play_list[self.player.playlist_index].1.clone();
                    self.player.playing_song = Some(name);
                    Action::StartTrack(path)
                } else {
                    Action::Idle
                }
            },
            Command::ClearPlaylist => {
                self.player.playing_song = None;
                self.player.play_list.clear();
                self.player.playlist_index = 0;
                Action::Idle
            },
            Command::NextTrack => {
                match self.player.next() {
                    Some(t) => Action::StartTrack(t.1),
                    None => Action::Idle,
                }
            },
            Command::Quit => {
                self.quit = true;
                Action::Idle
            },
            Command::ActivateSelection => {
                if self.explorer_index == 0 {
                    Action::GoUp
                } else {
                    let e = &self.explorer_list[self.explorer_index - 1];
                    if e.is_dir {
                        Action::EnterDirectory(e.path.clone())
                    } else {
                        let name = e.name.clone();
                        let path = e.path.clone();
                        self.player.play_list.push((name, path));
                        Action::Idle
                    }
                }
            },
            Command::PlaylistUp => {
                self.playerlist_up();
                Action::Idle
            },
            Command::PlaylistDown => {
                self.playerlist_down();
                Action::Idle
            },
            Command::Unsupported => Action::Idle,
        }
    }
}

} // verus!
