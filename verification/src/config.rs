//! Session configuration, logical key types and the recognized audio file
//! extensions.

use vstd::prelude::*;
use crate::text::{ends_with_proper, has_proper_suffix};

verus! {

/// Session configuration: the input poll timeout, in milliseconds.
pub struct Config {
    pub fresh_time: u64,
}

impl Config {
    /// The stock configuration: a 100 ms poll timeout.
    pub fn default() -> (c: Self)
        ensures
            c.fresh_time == 100,
    {
        Self { fresh_time: 100 }
    }
}

/// A logical key, free of any terminal backend's own key-code type.
#[derive(Debug, Copy, Clone, Hash, Eq, PartialEq)]
pub enum RawKey {
    Char(char),
    Up,
    Down,
    Left,
    Right,
    Backspace,
    Enter,
    Tab,
    Home,
    End,
    PageUp,
    PageDown,
    BackTab,
    Delete,
    Insert,
    Null,
    Esc,
}

/// A logical key together with its modifier.
#[derive(Debug, Copy, Clone, Hash, Eq, PartialEq)]
pub enum KeyBinding {
    Ctrl(RawKey),
    Shift(RawKey),
    Raw(RawKey),
    F(u8),
    Unsupported,
}

/// A file name carries a recognized audio extension: its last characters are
/// `.mp3`, `.wav`, `.flac` or `.ts` (exact, case-sensitive), with at least
/// one character before the dot. A name that is nothing but such a suffix
/// (a dot-file such as `.mp3`) has no extension and does not count.
pub open spec fn is_music_name(s: Seq<char>) -> bool {
    ||| has_proper_suffix(s, seq!['.', 'm', 'p', '3'])
    ||| has_proper_suffix(s, seq!['.', 'w', 'a', 'v'])
    ||| has_proper_suffix(s, seq!['.', 'f', 'l', 'a', 'c'])
    ||| has_proper_suffix(s, seq!['.', 't', 's'])
}

/// Reports whether a file name ends in one of the recognized audio
/// extensions.
pub fn is_music_file(name: &str) -> (b: bool)
    ensures
        b == is_music_name(name@),
{
    proof {
        reveal_strlit(".mp3");
        reveal_strlit(".wav");
        reveal_strlit(".flac");
        reveal_strlit(".ts");
        assert(".mp3"@ =~= seq!['.', 'm', 'p', '3']);
        assert(".wav"@ =~= seq!['.', 'w', 'a', 'v']);
        assert(".flac"@ =~= seq!['.', 'f', 'l', 'a', 'c']);
        assert(".ts"@ =~= seq!['.', 't', 's']);
    }
    ends_with_proper(name, ".mp3") || ends_with_proper(name, ".wav")
        || ends_with_proper(name, ".flac") || ends_with_proper(name, ".ts")
}

} // verus!
