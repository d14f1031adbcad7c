//! The playback state machine: track lifecycle, elapsed-time accounting
//! across pause and resume, volume, and playlist auto-advance.
//!
//! Every operation takes the current clock reading in milliseconds from the
//! caller, so the whole machine is stated and proved over plain integers.
//! The caller owns the audio sink: it probes a track's duration before
//! `play_song`, and mirrors `volume` and `is_playing` onto the sink.

use vstd::prelude::*;
use crate::cursor::wrap_inc;
use crate::text::{clock_text, push_clock};

verus! {

/// The playback status state machine. All times are milliseconds on the
/// caller's clock.
#[derive(Debug, Copy, Clone, PartialEq, Eq)]
pub enum PlayStatus {
    /// No timing reference established.
    Waiting,
    /// `Playing(start, acc)`: running since `start`, having spent `acc`
    /// milliseconds paused; elapsed play time at `now` is
    /// `now - start - acc`.
    Playing(u64, u64),
    /// `Paused(start, pause_at, acc)`: elapsed play time frozen at
    /// `pause_at - start - acc`.
    Paused(u64, u64, u64),
    /// Elapsed play time reached the track's total duration; terminal
    /// until a new track starts.
    Complete,
}

/// The internal consistency of a status: a running clock has not overflowed
/// and a pause mark lies at or after the accounted start.
pub open spec fn status_wf(s: PlayStatus) -> bool {
    match s {
        PlayStatus::Playing(start, acc) => start + acc <= u64::MAX,
        PlayStatus::Paused(start, pause_at, acc) => start + acc <= pause_at,
        _ => true,
    }
}

/// The earliest clock reading at which a status may be acted on; a caller's
/// `now` never lies before the timestamps already recorded.
pub open spec fn time_floor(s: PlayStatus) -> int {
    match s {
        PlayStatus::Playing(start, acc) => start + acc,
        PlayStatus::Paused(_, pause_at, _) => pause_at as int,
        _ => 0,
    }
}

/// Elapsed play time at clock reading `now`, in milliseconds: running time
/// minus accumulated pause time, frozen while paused, zero otherwise.
pub open spec fn elapsed_ms(s: PlayStatus, now: int) -> int {
    match s {
        PlayStatus::Playing(start, acc) => now - start - acc,
        PlayStatus::Paused(start, pause_at, acc) => pause_at - start - acc,
        _ => 0,
    }
}

/// The accumulated pause time a status records.
pub open spec fn acc_pause_ms(s: PlayStatus) -> int {
    match s {
        PlayStatus::Playing(_, acc) => acc as int,
        PlayStatus::Paused(_, _, acc) => acc as int,
        _ => 0,
    }
}

/// The status after a resume at `now`: a fresh clock from `Waiting` or
/// `Complete`, the pause just ended added to the accumulated pause time
/// from `Paused`, and no change while already `Playing`.
pub open spec fn status_after_play(s: PlayStatus, now: u64) -> PlayStatus {
    match s {
        PlayStatus::Waiting | PlayStatus::Complete => PlayStatus::Playing(now, 0),
        PlayStatus::Paused(start, pause_at, acc) => PlayStatus::Playing(
            start,
            (acc + (now - pause_at)) as u64,
        ),
        PlayStatus::Playing(_, _) => s,
    }
}

/// A track's timing is live (playing or paused): progress should render.
pub open spec fn is_active(c: PlayController) -> bool {
    !(c.status is Waiting || c.status is Complete)
}

/// The status after a pause at `now`: only `Playing` changes.
pub open spec fn status_after_pause(s: PlayStatus, now: u64) -> PlayStatus {
    match s {
        PlayStatus::Playing(start, acc) => PlayStatus::Paused(start, now, acc),
        _ => s,
    }
}

/// Owns the playlist, the playback status, the volume and the time
/// accounting, and drives the playlist's auto-advance.
pub struct PlayController {
    /// Volume in hundredths of full scale, `0 ..= 100`; the caller maps it
    /// onto its sink's `0.0 ..= 1.0` range.
    pub volume: u32,
    /// Elapsed play time of the active track, milliseconds.
    pub current_time: u64,
    /// Total duration of the active track, milliseconds.
    pub total_time: u64,
    pub status: PlayStatus,
    /// Display name of the song most recently selected for play.
    pub playing_song: Option<String>,
    /// `(display name, path)` pairs in insertion order; duplicates allowed.
    pub play_list: Vec<(String, String)>,
    /// Cursor into `play_list`; `0` while the playlist is empty.
    pub playlist_index: usize,
    pub is_playing: bool,
}

impl PlayController {
    /// Every reachable controller state: volume clamped, elapsed play time
    /// within the track, status timestamps consistent, cursor in bounds.
    pub open spec fn wf(&self) -> bool {
        &&& self.volume <= 100
        &&& status_wf(self.status)
        &&& self.current_time <= self.total_time
        &&& (self.play_list.len() > 0 ==> self.playlist_index < self.play_list.len())
        &&& (self.play_list.len() == 0 ==> self.playlist_index == 0)
    }

    /// A fresh controller: full volume, empty playlist, nothing playing.
    pub fn new() -> (c: PlayController)
        ensures
            c.wf(),
            c.volume == 100,
            c.current_time == 0,
            c.total_time == 0,
            c.status == PlayStatus::Waiting,
            c.playing_song is None,
            c.play_list@ == Seq::<(String, String)>::empty(),
            c.playlist_index == 0,
            !c.is_playing,
    {
        PlayController {
            volume: 100,
            current_time: 0,
            total_time: 0,
            status: PlayStatus::Waiting,
            playing_song: None,
            play_list: Vec::new(),
            playlist_index: 0,
            is_playing: false,
        }
    }

    /// Installs a freshly probed track. The caller has asked its decoder
    /// for the track's duration and hands it over, or `None` when the file
    /// cannot be opened or its duration cannot be determined; such a track
    /// changes nothing and reports `false`. On success the clock restarts:
    /// the track plays from zero as of `now_ms`.
    pub fn play_song(&mut self, duration_ms: Option<u64>, now_ms: u64) -> (ok: bool)
        requires
            old(self).wf(),
        ensures
            final(self).wf(),
            ok == duration_ms is Some,
            duration_ms is None ==> *final(self) == *old(self),
            duration_ms matches Some(d) ==> {
                &&& final(self).total_time == d
                &&& final(self).current_time == 0
                &&& final(self).status == PlayStatus::Playing(now_ms, 0)
                &&& final(self).is_playing
                &&& final(self).volume == old(self).volume
                &&& final(self).playing_song == old(self).playing_song
                &&& final(self).play_list == old(self).play_list
                &&& final(self).playlist_index == old(self).playlist_index
            },
            duration_ms is Some ==> time_floor(final(self).status) <= now_ms,
    {
        match duration_ms {
            Some(d) => {
                self.total_time = d;
                self.current_time = 0;
                self.status = PlayStatus::Waiting;
                self.is_playing = false;
                self.play(now_ms);
                true
            },
            None => false,
        }
    }

    /// Volume up one step of a hundredth, clamped at full scale.
    pub fn inc_vol(&mut self)
        requires
            old(self).wf(),
        ensures
            final(self).wf(),
            final(self).volume == if old(self).volume < 100 {
                old(self).volume + 1
            } else {
                old(self).volume as int
            },
            final(self).current_time == old(self).current_time,
            final(self).total_time == old(self).total_time,
            final(self).status == old(self).status,
            final(self).playing_song == old(self).playing_song,
            final(self).play_list == old(self).play_list,
            final(self).playlist_index == old(self).playlist_index,
            final(self).is_playing == old(self).is_playing,
    {
        if self.volume < 100 {
            self.volume = self.volume + 1;
        }
    }

    /// Volume down one step of a hundredth, clamped at silence.
    pub fn dec_vol(&mut self)
        requires
            old(self).wf(),
        ensures
            final(self).wf(),
            final(self).volume == if old(self).volume > 0 {
                old(self).volume - 1
            } else {
                0int
            },
            final(self).current_time == old(self).current_time,
            final(self).total_time == old(self).total_time,
            final(self).status == old(self).status,
            final(self).playing_song == old(self).playing_song,
            final(self).play_list == old(self).play_list,
            final(self).playlist_index == old(self).playlist_index,
            final(self).is_playing == old(self).is_playing,
    {
        if self.volume > 0 {
            self.volume = self.volume - 1;
        }
    }

    /// True while a track's timing is live (playing or paused): progress
    /// should render.
    pub fn is_playing_or_paused(&self) -> (b: bool)
        ensures
            b == is_active(*self),
    {
        match self.status {
            PlayStatus::Waiting | PlayStatus::Complete => false,
            _ => true,
        }
    }

    /// Resume. From `Waiting` or `Complete` the clock starts fresh at
    /// `now_ms`; from `Paused`, the pause just ended joins the accumulated
    /// pause time, so elapsed play time carries on exactly where it froze.
    /// The accumulated pause time never shrinks.
    pub fn play(&mut self, now_ms: u64)
        requires
            old(self).wf(),
            now_ms >= time_floor(old(self).status),
        ensures
            final(self).wf(),
            final(self).status == status_after_play(old(self).status, now_ms),
            final(self).is_playing,
            acc_pause_ms(final(self).status) >= acc_pause_ms(old(self).status),
            elapsed_ms(final(self).status, now_ms as int) == elapsed_ms(
                old(self).status,
                now_ms as int,
            ),
            time_floor(final(self).status) <= now_ms,
            final(self).volume == old(self).volume,
            final(self).current_time == old(self).current_time,
            final(self).total_time == old(self).total_time,
            final(self).playing_song == old(self).playing_song,
            final(self).play_list == old(self).play_list,
            final(self).playlist_index == old(self).playlist_index,
    {
        self.is_playing = true;
        match self.status {
            PlayStatus::Complete | PlayStatus::Waiting => {
                self.status = PlayStatus::Playing(now_ms, 0);
            },
            PlayStatus::Paused(start_ins, pause_ins, paused_time) => {
                self.status = PlayStatus::Playing(start_ins, paused_time + (now_ms - pause_ins));
            },
            PlayStatus::Playing(_, _) => {},
        }
    }

    /// Pause. Only `Playing` changes: elapsed play time freezes at its
    /// value at `now_ms` and stays frozen however much later it is read.
    /// The accumulated pause time is untouched.
    pub fn pause(&mut self, now_ms: u64)
        requires
            old(self).wf(),
            now_ms >= time_floor(old(self).status),
        ensures
            final(self).wf(),
            final(self).status == status_after_pause(old(self).status, now_ms),
            !final(self).is_playing,
            acc_pause_ms(final(self).status) == acc_pause_ms(old(self).status),
            elapsed_ms(final(self).status, now_ms as int) == elapsed_ms(
                old(self).status,
                now_ms as int,
            ),
            forall|t: int|
                elapsed_ms(final(self).status, t) == elapsed_ms(
                    final(self).status,
                    now_ms as int,
                ),
            time_floor(final(self).status) <= now_ms,
            final(self).volume == old(self).volume,
            final(self).current_time == old(self).current_time,
            final(self).total_time == old(self).total_time,
            final(self).playing_song == old(self).playing_song,
            final(self).play_list == old(self).play_list,
            final(self).playlist_index == old(self).playlist_index,
    {
        self.is_playing = false;
        match self.status {
            PlayStatus::Playing(start_ins, paused_time) => {
                self.status = PlayStatus::Paused(start_ins, now_ms, paused_time);
            },
            _ => {},
        }
    }

    /// Steps the playlist cursor forward with wraparound and selects that
    /// track for play, returning its `(name, path)` for the caller to
    /// start. An empty playlist changes nothing and returns `None`.
    pub fn next(&mut self) -> (r: Option<(String, String)>)
        requires
            old(self).wf(),
        ensures
            final(self).wf(),
            old(self).play_list.len() == 0 ==> *final(self) == *old(self) && r is None,
            old(self).play_list.len() > 0 ==> {
                &&& final(self).playlist_index == wrap_inc(
                    old(self).playlist_index as int,
                    old(self).play_list.len() as int,
                )
                &&& final(self).playing_song == Some(
                    old(self).play_list@[final(self).playlist_index as int].0,
                )
                &&& r == Some(old(self).play_list@[final(self).playlist_index as int])
                &&& final(self).play_list == old(self).play_list
                &&& final(self).status == old(self).status
                &&& final(self).current_time == old(self).current_time
                &&& final(self).total_time == old(self).total_time
                &&& final(self).volume == old(self).volume
                &&& final(self).is_playing == old(self).is_playing
            },
    {
        if self.play_list.len() == 0 {
            return None;
        }
        if self.playlist_index == self.play_list.len() - 1 {
            self.playlist_index = 0;
        } else {
            self.playlist_index = self.playlist_index + 1;
        }
        let name = self.play_list[self.playlist_index].0.clone();
        let path = self.play_list[self.playlist_index].1.clone();
        self.playing_song = Some(name.clone());
        Some((name, path))
    }

    /// One loop iteration's time step. While `Playing`, recomputes elapsed
    /// play time at `now_ms`. The moment it reaches the track's total
    /// duration, the status moves to `Complete` — once, since `Complete`
    /// is not `Playing` — and the playlist advances exactly one step, the
    /// returned track (if any) to be started by the caller; a caller whose
    /// start fails leaves the cursor advanced and the status `Complete`,
    /// so a failing track is skipped, not retried.
    pub fn tick(&mut self, now_ms: u64) -> (r: Option<(String, String)>)
        requires
            old(self).wf(),
            now_ms >= time_floor(old(self).status),
        ensures
            final(self).wf(),
            time_floor(final(self).status) <= now_ms,
            !(old(self).status is Playing) ==> *final(self) == *old(self) && r is None,
            old(self).status is Playing && elapsed_ms(old(self).status, now_ms as int) < old(
                self,
            ).total_time ==> {
                &&& final(self).current_time == elapsed_ms(old(self).status, now_ms as int)
                &&& final(self).status == old(self).status
                &&& final(self).volume == old(self).volume
                &&& final(self).total_time == old(self).total_time
                &&& final(self).playing_song == old(self).playing_song
                &&& final(self).play_list == old(self).play_list
                &&& final(self).playlist_index == old(self).playlist_index
                &&& final(self).is_playing == old(self).is_playing
                &&& r is None
            },
            old(self).status is Playing && elapsed_ms(old(self).status, now_ms as int) >= old(
                self,
            ).total_time ==> {
                &&& final(self).status == PlayStatus::Complete
                &&& final(self).current_time == old(self).current_time
                &&& final(self).total_time == old(self).total_time
                &&& final(self).volume == old(self).volume
                &&& final(self).play_list == old(self).play_list
                &&& final(self).is_playing == old(self).is_playing
                &&& (old(self).play_list.len() == 0 ==> final(self).playlist_index == old(
                    self,
                ).playlist_index && final(self).playing_song == old(self).playing_song
                    && r is None)
                &&& (old(self).play_list.len() > 0 ==> {
                    &&& final(self).playlist_index == wrap_inc(
                        old(self).playlist_index as int,
                        old(self).play_list.len() as int,
                    )
                    &&& final(self).playing_song == Some(
                        old(self).play_list@[final(self).playlist_index as int].0,
                    )
                    &&& r == Some(old(self).play_list@[final(self).playlist_index as int])
                })
            },
    {
        match self.status {
            PlayStatus::Playing(start_ins, paused_time) => {
                let now = now_ms - start_ins - paused_time;
                if now >= self.total_time {
                    self.status = PlayStatus::Complete;
                    self.next()
                } else {
                    self.current_time = now;
                    None
                }
            },
            _ => None,
        }
    }

    /// Renders `"MM:SS / MM:SS"`: elapsed play time, then total duration,
    /// each in whole seconds rounded down, minutes and seconds zero-padded
    /// to two digits (the minute field simply grows past 99 minutes).
    pub fn get_progress(&self) -> (s: String)
        ensures
            s@ == progress_text(self.current_time as int, self.total_time as int),
    {
        let mut s = String::new();
        push_clock(&mut s, self.current_time / 1000);
        s.append(" / ");
        proof {
            reveal_strlit(" / ");
        }
        push_clock(&mut s, self.total_time / 1000);
        proof {
            assert(s@ =~= progress_text(self.current_time as int, self.total_time as int));
        }
        s
    }
}

/// The progress read-out for an elapsed and a total time in milliseconds.
pub open spec fn progress_text(cur_ms: int, total_ms: int) -> Seq<char> {
    clock_text(cur_ms / 1000) + seq![' ', '/', ' '] + clock_text(total_ms / 1000)
}

/// One pause or resume step at clock reading `now`: a pause when `pause_step`,
/// else a resume.
pub open spec fn apply_event(s: PlayStatus, pause_step: bool, now: u64) -> PlayStatus {
    if pause_step {
        status_after_pause(s, now)
    } else {
        status_after_play(s, now)
    }
}

/// A whole sequence of pause and resume steps, applied in order.
pub open spec fn apply_events(s: PlayStatus, evs: Seq<(bool, u64)>) -> PlayStatus
    decreases evs.len(),
{
    if evs.len() == 0 {
        s
    } else {
        apply_events(apply_event(s, evs[0].0, evs[0].1), evs.drop_first())
    }
}

/// Each step's clock reading lies at or after the floor of the status it
/// acts on: what any monotone clock hands the controller.
pub open spec fn events_wf(s: PlayStatus, evs: Seq<(bool, u64)>) -> bool
    decreases evs.len(),
{
    evs.len() == 0 || (evs[0].1 >= time_floor(s) && events_wf(
        apply_event(s, evs[0].0, evs[0].1),
        evs.drop_first(),
    ))
}

/// Under every sequence of pause and resume steps, the accumulated pause
/// time never decreases, and the status stays well formed.
pub proof fn lemma_pause_time_monotone(s: PlayStatus, evs: Seq<(bool, u64)>)
    requires
        status_wf(s),
        events_wf(s, evs),
    ensures
        status_wf(apply_events(s, evs)),
        acc_pause_ms(apply_events(s, evs)) >= acc_pause_ms(s),
    decreases evs.len(),
{
    if evs.len() > 0 {
        let s1 = apply_event(s, evs[0].0, evs[0].1);
        assert(status_wf(s1));
        lemma_pause_time_monotone(s1, evs.drop_first());
    }
}

} // verus!
