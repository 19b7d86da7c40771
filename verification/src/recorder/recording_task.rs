//! The parts of a recording task that decide: the name of the video file,
//! whether the game window's size can be used, and, for the recorder that
//! follows the game window, when to start and stop.

use vstd::prelude::*;

verus! {

/// The file name format with ".mp4" appended unless it already ends so.
pub open spec fn mp4_format(format: Seq<char>) -> Seq<char> {
    if format.len() >= 4 && format.subrange(format.len() - 4, format.len() as int) == ".mp4"@ {
        format
    } else {
        format + ".mp4"@
    }
}

/// The file name format of a recording: the one of the settings, made to
/// end in ".mp4".
pub fn recording_file_format(format: &str) -> (r: String)
    ensures
        r@ == mp4_format(format@),
{
    let cs = crate::text::chars_of(format);
    let n = cs.len();
    let mut ends_mp4 = false;
    if n >= 4 {
        let tail = crate::text::slice_of(&cs, n - 4, n);
        let tail_s = crate::text::string_of(&tail);
        ends_mp4 = crate::text::str_eq(tail_s.as_str(), ".mp4");
    }
    let mut s = String::from_str(format);
    if !ends_mp4 {
        let suffix = ".mp4";
        let m = suffix.unicode_len();
        let ghost first = s@;
        let mut i: usize = 0;
        while i < m
            invariant
                m == suffix@.len(),
                i <= m,
                s@ == first + suffix@.subrange(0, i as int),
            decreases m - i,
        {
            crate::text::push_char(&mut s, suffix.get_char(i));
            i = i + 1;
        }
        assert(suffix@.subrange(0, m as int) =~= suffix@);
    }
    s
}

/// The game window's client area as a size, where it is larger than 1x1:
/// right after the window is created the system reports 1x1 for a moment.
pub fn usable_window_size(right: i32, bottom: i32) -> (r: Option<(u32, u32)>)
    ensures
        r == (if right > 1 && bottom > 1 { Some((right as u32, bottom as u32)) } else { None::<(u32, u32)> }),
{
    if right > 1 && bottom > 1 {
        Some((right as u32, bottom as u32))
    } else {
        None
    }
}

/// What the window-following recorder does in one round.
#[derive(Debug, Clone, Copy, PartialEq, Eq, Structural)]
pub enum CaptureAction {
    /// Set up a recorder for the window and start it.
    Start,
    /// Stop the running recorder and shut it down.
    Stop,
    Nothing,
}

/// One round of the recorder that follows the game window: it starts when
/// the window is there and nothing records, stops when the window is gone
/// and something records, and otherwise waits.
pub open spec fn capture_action_of(window_found: bool, recording: bool) -> CaptureAction {
    if window_found && !recording {
        CaptureAction::Start
    } else if !window_found && recording {
        CaptureAction::Stop
    } else {
        CaptureAction::Nothing
    }
}

/// Decides one round of the recorder that follows the game window.
pub fn capture_action(window_found: bool, recording: bool) -> (r: CaptureAction)
    ensures
        r == capture_action_of(window_found, recording),
{
    if window_found && !recording {
        CaptureAction::Start
    } else if !window_found && recording {
        CaptureAction::Stop
    } else {
        CaptureAction::Nothing
    }
}

/// Whether something records after a round, given that a started recorder
/// started (`started`).
pub open spec fn recording_after(action: CaptureAction, recording: bool, started: bool) -> bool {
    match action {
        CaptureAction::Start => started,
        CaptureAction::Stop => false,
        CaptureAction::Nothing => recording,
    }
}

/// The window-following recorder never starts a second recording while
/// one runs, and a recording never outlives the window by more than a round.
pub proof fn lemma_capture_follows_window(window_found: bool, recording: bool, started: bool)
    ensures
        recording ==> capture_action_of(window_found, recording) != CaptureAction::Start,
        !window_found ==> !recording_after(capture_action_of(window_found, recording), recording, started),
{
}

/// A recording's file name format always ends in ".mp4" and starts with the
/// format it was made from; a format that already ends so is kept as it is,
/// any other gets exactly ".mp4" appended, and doing it again changes nothing.
pub proof fn lemma_mp4_format(format: Seq<char>)
    ensures
        mp4_format(format).len() >= 4,
        mp4_format(format).subrange(mp4_format(format).len() - 4, mp4_format(format).len() as int) == ".mp4"@,
        mp4_format(format).subrange(0, format.len() as int) == format,
        mp4_format(format) == format || mp4_format(format) == format + ".mp4"@,
        format.len() >= 4 && format.subrange(format.len() - 4, format.len() as int) == ".mp4"@
            ==> mp4_format(format) == format,
        mp4_format(mp4_format(format)) == mp4_format(format),
{
    reveal_strlit(".mp4");
    let r = mp4_format(format);
    assert(".mp4"@.len() == 4);
    if !(format.len() >= 4 && format.subrange(format.len() - 4, format.len() as int) == ".mp4"@) {
        assert(r.subrange(r.len() - 4, r.len() as int) =~= ".mp4"@);
        assert(r.subrange(0, format.len() as int) =~= format);
    } else {
        assert(r.subrange(0, format.len() as int) =~= format);
    }
}

} // verus!
