//! Players of still media (images, vector images, animations): how long a
//! medium is shown, and what ticking, seeking, the user and losing focus do
//! to the player. Times are counted in nanoseconds, as
//! `std::time::Duration` holds them.
use vstd::prelude::*;
use crate::prelude::{hhmmss, mmss, timestamp_hhmmss, timestamp_mmss};
use crate::resource::config::Playback;

verus! {

/// The longest span that a `Duration` holds, in nanoseconds.
pub const MAX_NANOS: u128 = 18446744073709551615999999999;

/// The state of a player showing a still medium, apart from the medium
/// itself and its picture.
#[derive(Clone, Copy, Debug, PartialEq, Eq)]
pub struct StillPlayer {
    /// How far into its showing the medium is.
    pub position: u128,
    /// How long the medium is shown.
    pub duration: u128,
    pub paused: bool,
    pub muted: bool,
    pub looping: bool,
    /// Whether the user is dragging the seek bar.
    pub dragging: bool,
    /// Whether the pointer is over the player.
    pub hovered: bool,
    /// Whether losing focus paused the medium, so that regaining it resumes.
    pub need_play_on_focus: bool,
}

/// What can happen to a player of a still medium. (Seeking to a fraction
/// of the medium and stepping are left to the caller, which computes the
/// position; changing the volume does nothing to a still medium.)
#[derive(Clone, Copy, Debug, PartialEq, Eq)]
pub enum StillEvent {
    SetPause(bool),
    SetLoop(bool),
    SetMute(bool),
    SetVolume,
    /// Drag the position to this many nanoseconds.
    Seek(u128),
    SeekStop,
    SeekRandom,
    EndOfStream,
    NewFrame,
    MouseEnter,
    MouseExit,
    Refresh,
    Close,
    WindowFocused,
    WindowUnfocused,
}

/// What a player of a still medium reports to its grid.
#[derive(Clone, Copy, Debug, PartialEq, Eq, Structural)]
pub enum StillUpdate {
    PauseChanged(bool),
    MuteChanged,
    /// The position moved; its share of the whole is `position / duration`.
    PositionChanged { position: u128, duration: u128 },
    EndOfStream,
    Refresh,
    Close,
}

impl StillPlayer {
    /// A player at the start of a showing of `duration`.
    pub fn new(duration: u128, paused: bool, muted: bool) -> (res: Self)
        ensures
            res == (StillPlayer {
                position: 0,
                duration,
                paused,
                muted,
                looping: false,
                dragging: false,
                hovered: false,
                need_play_on_focus: false,
            }),
    {
        StillPlayer {
            position: 0,
            duration,
            paused,
            muted,
            looping: false,
            dragging: false,
            hovered: false,
            need_play_on_focus: false,
        }
    }

    /// A player at the start of showing an image for as long as the
    /// playback settings ask, paused and muted as they say.
    pub fn for_image(playback: &Playback) -> (res: Self)
        ensures
            res == image_player(*playback),
    {
        let secs = playback.image_duration.get() as u128;
        assert(secs * NANOS_PER_SEC <= u128::MAX) by (nonlinear_arith)
            requires
                secs <= u64::MAX,
        ;
        StillPlayer::new(secs * NANOS_PER_SEC, playback.paused, playback.muted)
    }

    /// The player for an image, given whether loading the image worked: a
    /// player at the start of showing it, as `for_image` makes, or else a
    /// failed player that holds the error's message, with the pointer not
    /// over it. (The medium itself stays with the caller.)
    pub fn load_image(loaded: Result<(), String>, playback: &Playback) -> (res: Result<
        StillPlayer,
        PlaceholderPlayer,
    >)
        ensures
            match loaded {
                Ok(_) => res == Ok::<StillPlayer, PlaceholderPlayer>(image_player(*playback)),
                Err(message) => res == Err::<StillPlayer, PlaceholderPlayer>(
                    PlaceholderPlayer::Error { message, hovered: false },
                ),
            },
    {
        match loaded {
            Ok(_) => Ok(StillPlayer::for_image(playback)),
            Err(message) => Err(PlaceholderPlayer::Error { message, hovered: false }),
        }
    }

    /// Lets `elapsed` pass: the position moves on unless paused or dragged;
    /// at the end a looping medium starts over, any other reports its end.
    /// Only a position that moves must stay within what a `Duration` holds.
    pub fn tick(&mut self, elapsed: u128) -> (res: Option<StillUpdate>)
        requires
            !old(self).paused && !old(self).dragging ==> old(self).position + elapsed
                <= MAX_NANOS,
        ensures
            (*final(self), res) == tick_of(*old(self), elapsed),
    {
        if !self.paused && !self.dragging {
            self.position = self.position + elapsed;
        }
        if self.position >= self.duration {
            if self.looping {
                self.position = 0;
                None
            } else {
                Some(StillUpdate::EndOfStream)
            }
        } else {
            None
        }
    }

    /// Back to the start.
    pub fn restart(&mut self)
        ensures
            *final(self) == (StillPlayer { position: 0, ..*old(self) }),
    {
        self.position = 0;
    }

    /// Drags the position to `offset`, no further than the end.
    pub fn seek(&mut self, offset: u128)
        ensures
            *final(self) == seek_of(*old(self), offset),
    {
        self.dragging = true;
        self.position = if offset < self.duration {
            offset
        } else {
            self.duration
        };
    }

    /// Ends dragging.
    pub fn seek_stop(&mut self)
        ensures
            *final(self) == (StillPlayer { dragging: false, ..*old(self) }),
    {
        self.dragging = false;
    }

    /// The window lost focus: where the settings ask for it, the medium
    /// pauses and remembers to resume.
    pub fn window_unfocused(&mut self, pause_on_unfocus: bool)
        ensures
            *final(self) == unfocused_of(*old(self), pause_on_unfocus),
    {
        if pause_on_unfocus {
            self.paused = true;
            self.need_play_on_focus = true;
        }
    }

    /// The window regained focus: a medium paused by losing it resumes.
    pub fn window_focused(&mut self)
        ensures
            *final(self) == focused_of(*old(self)),
    {
        if self.need_play_on_focus {
            self.paused = false;
            self.need_play_on_focus = false;
        }
    }

    /// Handles an event with the given playback settings, and says what the
    /// grid should learn of it.
    pub fn update(&mut self, event: StillEvent, playback: &Playback) -> (res: Option<StillUpdate>)
        ensures
            (*final(self), res) == update_of(*old(self), event, playback.pause_on_unfocus),
    {
        match event {
            StillEvent::SetPause(flag) => {
                self.paused = flag;
                Some(StillUpdate::PauseChanged(flag))
            },
            StillEvent::SetLoop(flag) => {
                self.looping = flag;
                None
            },
            StillEvent::SetMute(flag) => {
                self.muted = flag;
                Some(StillUpdate::MuteChanged)
            },
            StillEvent::SetVolume => None,
            StillEvent::Seek(offset) => {
                self.seek(offset);
                if self.duration > 0 {
                    Some(StillUpdate::PositionChanged { position: self.position, duration: self.duration })
                } else {
                    None
                }
            },
            StillEvent::SeekStop => {
                self.seek_stop();
                None
            },
            StillEvent::SeekRandom => None,
            StillEvent::EndOfStream => Some(StillUpdate::EndOfStream),
            StillEvent::NewFrame => None,
            StillEvent::MouseEnter => {
                self.hovered = true;
                None
            },
            StillEvent::MouseExit => {
                self.hovered = false;
                None
            },
            StillEvent::Refresh => Some(StillUpdate::Refresh),
            StillEvent::Close => Some(StillUpdate::Close),
            StillEvent::WindowFocused => {
                self.window_focused();
                None
            },
            StillEvent::WindowUnfocused => {
                self.window_unfocused(playback.pause_on_unfocus);
                None
            },
        }
    }
}

/// The player after `event`, and what it reports: the flags that the user
/// sets are set (pausing and muting reported), seeking drags the position
/// (reported where the medium has a length, so that its share is defined),
/// the pointer sets hovering, focus pauses and resumes, and the end,
/// refreshing and closing are passed on.
pub open spec fn update_of(c: StillPlayer, event: StillEvent, pause_on_unfocus: bool) -> (
    StillPlayer,
    Option<StillUpdate>,
) {
    match event {
        StillEvent::SetPause(flag) => (
            StillPlayer { paused: flag, ..c },
            Some(StillUpdate::PauseChanged(flag)),
        ),
        StillEvent::SetLoop(flag) => (StillPlayer { looping: flag, ..c }, None),
        StillEvent::SetMute(flag) => (StillPlayer { muted: flag, ..c }, Some(StillUpdate::MuteChanged)),
        StillEvent::Seek(offset) => {
            let moved = seek_of(c, offset);
            (
                moved,
                if c.duration > 0 {
                    Some(
                        StillUpdate::PositionChanged {
                            position: moved.position,
                            duration: c.duration,
                        },
                    )
                } else {
                    None
                },
            )
        },
        StillEvent::SeekStop => (StillPlayer { dragging: false, ..c }, None),
        StillEvent::EndOfStream => (c, Some(StillUpdate::EndOfStream)),
        StillEvent::MouseEnter => (StillPlayer { hovered: true, ..c }, None),
        StillEvent::MouseExit => (StillPlayer { hovered: false, ..c }, None),
        StillEvent::Refresh => (c, Some(StillUpdate::Refresh)),
        StillEvent::Close => (c, Some(StillUpdate::Close)),
        StillEvent::WindowFocused => (focused_of(c), None),
        StillEvent::WindowUnfocused => (unfocused_of(c, pause_on_unfocus), None),
        _ => (c, None),
    }
}

/// Nanoseconds in a second.
pub const NANOS_PER_SEC: u128 = 1_000_000_000;

/// The labels under a medium: its position and its length, in whole
/// seconds, both as `hh:mm:ss` where the medium is longer than an hour and
/// both as `mm:ss` otherwise. Times are in nanoseconds.
pub fn timestamps(current: u128, total: u128) -> (res: (String, String))
    requires
        current <= MAX_NANOS,
        total <= MAX_NANOS,
    ensures
        ({
            let c = (current / NANOS_PER_SEC) as nat;
            let t = (total / NANOS_PER_SEC) as nat;
            if t > 60 * 60 {
                res.0@ == hhmmss(c) && res.1@ == hhmmss(t)
            } else {
                res.0@ == mmss(c) && res.1@ == mmss(t)
            }
        }),
{
    let c = (current / NANOS_PER_SEC) as u64;
    let t = (total / NANOS_PER_SEC) as u64;
    if t > 60 * 60 {
        (timestamp_hhmmss(c), timestamp_hhmmss(t))
    } else {
        (timestamp_mmss(c), timestamp_mmss(t))
    }
}

/// A player at the start of showing an image: for the image duration of
/// the settings (seconds, counted here in nanoseconds), paused and muted as
/// the settings say, neither looping, dragged nor hovered.
pub open spec fn image_player(playback: Playback) -> StillPlayer {
    StillPlayer {
        position: 0,
        duration: (playback.image_duration@ * NANOS_PER_SEC) as u128,
        paused: playback.paused,
        muted: playback.muted,
        looping: false,
        dragging: false,
        hovered: false,
        need_play_on_focus: false,
    }
}

/// A player with no medium to show, or one whose medium failed to load.
#[derive(Clone, Debug, PartialEq, Eq)]
pub enum PlaceholderPlayer {
    Idle { hovered: bool },
    Error { message: String, hovered: bool },
}

/// The placeholder with hovering set to `flag`.
pub open spec fn with_hovered(p: PlaceholderPlayer, flag: bool) -> PlaceholderPlayer {
    match p {
        PlaceholderPlayer::Idle { .. } => PlaceholderPlayer::Idle { hovered: flag },
        PlaceholderPlayer::Error { message, .. } => PlaceholderPlayer::Error { message, hovered: flag },
    }
}

/// The placeholder after `event`, and what it reports: the pointer sets
/// hovering, closing is passed on, refreshing is passed on by a failed
/// player (to try its medium again), and nothing else has an effect.
pub open spec fn placeholder_update_of(p: PlaceholderPlayer, event: StillEvent) -> (
    PlaceholderPlayer,
    Option<StillUpdate>,
) {
    match event {
        StillEvent::MouseEnter => (with_hovered(p, true), None),
        StillEvent::MouseExit => (with_hovered(p, false), None),
        StillEvent::Close => (p, Some(StillUpdate::Close)),
        StillEvent::Refresh => (p, if p is Error {
            Some(StillUpdate::Refresh)
        } else {
            None
        }),
        _ => (p, None),
    }
}

impl PlaceholderPlayer {
    /// Whether the pointer is over the player.
    pub fn is_hovered(&self) -> (res: bool)
        ensures
            res == match *self {
                PlaceholderPlayer::Idle { hovered } => hovered,
                PlaceholderPlayer::Error { hovered, .. } => hovered,
            },
    {
        match self {
            PlaceholderPlayer::Idle { hovered } => *hovered,
            PlaceholderPlayer::Error { hovered, .. } => *hovered,
        }
    }

    /// Lets time pass: nothing plays, so nothing changes and nothing is
    /// reported.
    pub fn tick(&mut self, elapsed: u128) -> (res: Option<StillUpdate>)
        ensures
            res is None,
            *final(self) == *old(self),
    {
        None
    }

    /// Handles an event, and says what the grid should learn of it.
    pub fn update(&mut self, event: StillEvent) -> (res: Option<StillUpdate>)
        ensures
            (*final(self), res) == placeholder_update_of(*old(self), event),
    {
        match event {
            StillEvent::MouseEnter | StillEvent::MouseExit => {
                let flag = match event {
                    StillEvent::MouseEnter => true,
                    _ => false,
                };
                match self {
                    PlaceholderPlayer::Idle { hovered } => {
                        *hovered = flag;
                    },
                    PlaceholderPlayer::Error { hovered, .. } => {
                        *hovered = flag;
                    },
                }
                None
            },
            StillEvent::Close => Some(StillUpdate::Close),
            StillEvent::Refresh => match self {
                PlaceholderPlayer::Error { .. } => Some(StillUpdate::Refresh),
                PlaceholderPlayer::Idle { .. } => None,
            },
            _ => None,
        }
    }
}

/// The player after a tick of `elapsed`, and what the tick reports.
pub open spec fn tick_of(c: StillPlayer, elapsed: u128) -> (StillPlayer, Option<StillUpdate>) {
    let moved = if !c.paused && !c.dragging {
        (c.position + elapsed) as u128
    } else {
        c.position
    };
    if moved >= c.duration {
        if c.looping {
            (StillPlayer { position: 0, ..c }, None)
        } else {
            (StillPlayer { position: moved, ..c }, Some(StillUpdate::EndOfStream))
        }
    } else {
        (StillPlayer { position: moved, ..c }, None)
    }
}

/// The player dragged to `offset`, no further than the end.
pub open spec fn seek_of(c: StillPlayer, offset: u128) -> StillPlayer {
    StillPlayer {
        position: if offset < c.duration {
            offset
        } else {
            c.duration
        },
        dragging: true,
        ..c
    }
}

/// The player after the window lost focus.
pub open spec fn unfocused_of(c: StillPlayer, pause_on_unfocus: bool) -> StillPlayer {
    if pause_on_unfocus {
        StillPlayer { paused: true, need_play_on_focus: true, ..c }
    } else {
        c
    }
}

/// The player after the window regained focus.
pub open spec fn focused_of(c: StillPlayer) -> StillPlayer {
    if c.need_play_on_focus {
        StillPlayer { paused: false, need_play_on_focus: false, ..c }
    } else {
        c
    }
}

/// A looping medium never reports its end: a tick leaves it short of its
/// end or back at the start.
pub proof fn law_looping_never_ends(c: StillPlayer, elapsed: u128)
    requires
        c.looping,
    ensures
        tick_of(c, elapsed).1 is None,
        tick_of(c, elapsed).0.position == 0 || tick_of(c, elapsed).0.position < c.duration,
{
}

/// A reported position is never past the end, so its share of the whole
/// lies between zero and one.
pub proof fn law_reported_position_within(c: StillPlayer, event: StillEvent, pause_on_unfocus: bool)
    ensures
        update_of(c, event, pause_on_unfocus).1 matches Some(
            StillUpdate::PositionChanged { position, duration },
        ) ==> 0 < duration && position <= duration,
{
}

/// A paused or dragged medium does not move on a tick.
pub proof fn law_paused_stays(c: StillPlayer, elapsed: u128)
    requires
        c.paused || c.dragging,
        !c.looping || c.position < c.duration,
    ensures
        tick_of(c, elapsed).0.position == c.position,
{
}

/// Losing focus with pausing asked for, then regaining it, leaves the
/// medium playing where it was, with nothing left to resume.
pub proof fn law_focus_round_trip(c: StillPlayer)
    ensures
        focused_of(unfocused_of(c, true)) == (StillPlayer {
            paused: false,
            need_play_on_focus: false,
            ..c
        }),
{
}

/// Seeking drags the position to the offset asked for where it lies within
/// the medium, and to the end otherwise; it reports that position and the
/// length where the medium has one; nothing else about the player changes
/// but the dragging.
pub proof fn law_seek_goes_where_asked(c: StillPlayer, offset: u128, pause_on_unfocus: bool)
    ensures
        offset <= c.duration ==> seek_of(c, offset).position == offset,
        offset > c.duration ==> seek_of(c, offset).position == c.duration,
        seek_of(c, offset).dragging,
        seek_of(c, offset).duration == c.duration,
        seek_of(c, offset).paused == c.paused,
        update_of(c, StillEvent::Seek(offset), pause_on_unfocus).0 == seek_of(c, offset),
        c.duration > 0 && offset <= c.duration ==> update_of(
            c,
            StillEvent::Seek(offset),
            pause_on_unfocus,
        ).1 == Some(StillUpdate::PositionChanged { position: offset, duration: c.duration }),
{
}

/// Ticking moves a playing, undragged medium on by exactly the time that
/// passed, until its end.
pub proof fn law_tick_moves_by_elapsed(c: StillPlayer, elapsed: u128)
    requires
        !c.paused,
        !c.dragging,
        c.position + elapsed < c.duration,
    ensures
        tick_of(c, elapsed).0.position == c.position + elapsed,
        tick_of(c, elapsed).1 is None,
{
}

/// The flags that the user sets are set to what was asked, and changing
/// pausing or muting is reported with the new state; the pointer entering
/// or leaving sets hovering; the position is left alone by all of these.
pub proof fn law_user_flags(c: StillPlayer, flag: bool, pause_on_unfocus: bool)
    ensures
        update_of(c, StillEvent::SetPause(flag), pause_on_unfocus).0.paused == flag,
        update_of(c, StillEvent::SetPause(flag), pause_on_unfocus).1 == Some(
            StillUpdate::PauseChanged(flag),
        ),
        update_of(c, StillEvent::SetMute(flag), pause_on_unfocus).0.muted == flag,
        update_of(c, StillEvent::SetLoop(flag), pause_on_unfocus).0.looping == flag,
        update_of(c, StillEvent::MouseEnter, pause_on_unfocus).0.hovered,
        !update_of(c, StillEvent::MouseExit, pause_on_unfocus).0.hovered,
        update_of(c, StillEvent::SetPause(flag), pause_on_unfocus).0.position == c.position,
        update_of(c, StillEvent::SetMute(flag), pause_on_unfocus).0.position == c.position,
        update_of(c, StillEvent::SeekStop, pause_on_unfocus).0.position == c.position,
        !update_of(c, StillEvent::SeekStop, pause_on_unfocus).0.dragging,
{
}

/// A tick reports the end exactly when a medium that does not loop has
/// reached its length.
pub proof fn law_end_reported_at_the_end(c: StillPlayer, elapsed: u128)
    requires
        !c.paused && !c.dragging ==> c.position + elapsed <= MAX_NANOS,
    ensures
        ({
            let moved = if !c.paused && !c.dragging {
                c.position + elapsed
            } else {
                c.position as int
            };
            &&& tick_of(c, elapsed).1 == Some(StillUpdate::EndOfStream) <==> (!c.looping && moved
                >= c.duration)
            &&& tick_of(c, elapsed).1 is None <==> (c.looping || moved < c.duration)
            &&& (c.looping && moved >= c.duration) ==> tick_of(c, elapsed).0.position == 0
        }),
{
}

} // verus!
