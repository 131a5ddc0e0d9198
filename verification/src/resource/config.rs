//! The playback settings that the configuration keeps.
use vstd::prelude::*;
use crate::resource::playlist::NonZeroCount;

verus! {

/// The bit pattern of the single-precision volume 1.0, full volume.
pub const FULL_VOLUME_BITS: u32 = 0x3f80_0000;

/// How long images are shown by default, in seconds.
pub const DEFAULT_IMAGE_DURATION: usize = 10;

/// Whether to look for new releases.
#[derive(Clone, Copy, Debug, PartialEq, Eq)]
pub struct Release {
    /// Whether to check for new releases (at most once every 24 hours).
    pub check: bool,
}

impl Default for Release {
    /// Checking is on.
    fn default() -> (res: Self)
        ensures
            res.check,
    {
        Release { check: true }
    }
}

/// The visual theme.
#[derive(Clone, Copy, Debug, Default, PartialEq, Eq)]
pub enum Theme {
    Light,
    #[default]
    Dark,
}

/// How media play.
#[derive(Clone, Copy, Debug, PartialEq, Eq)]
pub struct Playback {
    /// Whether all players are paused (not saved).
    pub paused: bool,
    /// Whether all players are muted.
    pub muted: bool,
    /// The volume when not muted, as the bit pattern of a single-precision
    /// float: 1.0 is 100%, 0.01 is 1%.
    pub volume_bits: u32,
    /// How long to show images, in seconds.
    pub image_duration: NonZeroCount,
    /// Whether to pause when the window loses focus.
    pub pause_on_unfocus: bool,
    /// Whether to synchronize play, pause and seek among media of the same
    /// category.
    pub synchronized: bool,
}

impl Default for Playback {
    /// Playing, not muted, at full volume, images shown for ten seconds,
    /// neither pausing on losing focus nor synchronizing.
    fn default() -> (res: Self)
        ensures
            !res.paused,
            !res.muted,
            res.volume_bits == FULL_VOLUME_BITS,
            res.image_duration@ == DEFAULT_IMAGE_DURATION,
            !res.pause_on_unfocus,
            !res.synchronized,
    {
        Playback {
            paused: false,
            muted: false,
            volume_bits: FULL_VOLUME_BITS,
            image_duration: NonZeroCount::new(DEFAULT_IMAGE_DURATION).unwrap(),
            pause_on_unfocus: false,
            synchronized: false,
        }
    }
}

impl Playback {
    /// The settings with pausing set to `paused`.
    pub fn with_paused(&self, paused: bool) -> (res: Self)
        ensures
            res == (Playback { paused, ..*self }),
    {
        Playback { paused, ..*self }
    }

    /// The settings with pausing set to `paused` where it is given.
    pub fn with_paused_maybe(&self, paused: Option<bool>) -> (res: Self)
        ensures
            res == (Playback {
                paused: match paused {
                    Some(p) => p,
                    None => self.paused,
                },
                ..*self
            }),
    {
        Playback {
            paused: match paused {
                Some(p) => p,
                None => self.paused,
            },
            ..*self
        }
    }

    /// The settings with muting set to `muted`.
    pub fn with_muted(&self, muted: bool) -> (res: Self)
        ensures
            res == (Playback { muted, ..*self }),
    {
        Playback { muted, ..*self }
    }

    /// The settings with muting set to `muted` where it is given.
    pub fn with_muted_maybe(&self, muted: Option<bool>) -> (res: Self)
        ensures
            res == (Playback {
                muted: match muted {
                    Some(m) => m,
                    None => self.muted,
                },
                ..*self
            }),
    {
        Playback {
            muted: match muted {
                Some(m) => m,
                None => self.muted,
            },
            ..*self
        }
    }

    /// The settings with synchronizing set to `synchronized`.
    pub fn with_synchronized(&self, synchronized: bool) -> (res: Self)
        ensures
            res == (Playback { synchronized, ..*self }),
    {
        Playback { synchronized, ..*self }
    }
}

/// The playback settings once the players have reported what they say
/// together of pausing and of muting (nothing where none says anything),
/// and whether the configuration needs saving: only a change of muting is
/// kept on disk.
pub fn updated_playback(playback: &Playback, paused: Option<bool>, muted: Option<bool>) -> (res: (
    Playback,
    bool,
))
    ensures
        res.0 == (Playback {
            paused: match paused {
                Some(p) => p,
                None => playback.paused,
            },
            muted: match muted {
                Some(m) => m,
                None => playback.muted,
            },
            ..*playback
        }),
        res.1 == (muted matches Some(m) && m != playback.muted),
{
    let next = playback.with_paused_maybe(paused).with_muted_maybe(muted);
    let save = match muted {
        Some(m) => m != playback.muted,
        None => false,
    };
    (next, save)
}

} // verus!
