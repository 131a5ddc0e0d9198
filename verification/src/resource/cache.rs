//! What the application remembers between runs apart from its settings:
//! the version that last ran, and when a new release was last looked for.
use vstd::prelude::*;

verus! {

/// A day, in nanoseconds.
pub const DAY_NANOS: i128 = 86_400_000_000_000;

/// The remembered state. Times are nanoseconds since the Unix epoch, as
/// `chrono` timestamps give them.
#[derive(Clone, Debug, Default, PartialEq, Eq)]
pub struct Cache {
    /// The version of the application that last ran.
    pub version: Option<(u32, u32, u32)>,
    /// When a new release was last looked for.
    pub checked: i128,
    /// The newest release seen, as its version text.
    pub latest: Option<String>,
}

impl Cache {
    /// Notes the version that runs now, and says whether that changed what
    /// is remembered (so that it, and the configuration, are to be saved).
    pub fn migrate_config(&mut self, current: (u32, u32, u32)) -> (res: bool)
        ensures
            final(self).version == Some(current),
            final(self).checked == old(self).checked,
            final(self).latest == old(self).latest,
            res == (old(self).version != Some(current)),
    {
        let same = match self.version {
            Some(v) => v.0 == current.0 && v.1 == current.1 && v.2 == current.2,
            None => false,
        };
        if same {
            false
        } else {
            self.version = Some(current);
            true
        }
    }

    /// Whether to look for a new release at `now`: only once a whole day
    /// has passed since the last look.
    pub fn should_check_app_update(&self, now: i128) -> (res: bool)
        requires
            i128::MIN <= now - self.checked <= i128::MAX,
        ensures
            res == (now - self.checked >= DAY_NANOS),
    {
        now - self.checked >= DAY_NANOS
    }
}

} // verus!
