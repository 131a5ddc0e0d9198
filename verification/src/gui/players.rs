//! A grid of players: its settings and the players it shows, what ticking
//! them reports, and what the grid says of them together. The players held
//! are those of still media and placeholders.
use vstd::prelude::*;
use crate::gui::grid::{combined_flag, combined_flag_of, Settings};
use crate::gui::still::{placeholder_update_of, tick_of, PlaceholderPlayer, StillPlayer, StillUpdate};
use crate::media::{source_is_empty, source_views, Source, SourceView};
use crate::prelude::Change;
use crate::resource::config::Playback;
use crate::gui::still::MAX_NANOS;

verus! {

/// One player of a grid.
#[derive(Clone, Debug, PartialEq, Eq)]
pub enum GridPlayer {
    Still(StillPlayer),
    Placeholder(PlaceholderPlayer),
}

impl GridPlayer {
    /// A copy of the player.
    pub fn copy(&self) -> (res: Self)
        ensures
            res == *self,
    {
        match self {
            GridPlayer::Still(s) => GridPlayer::Still(*s),
            GridPlayer::Placeholder(PlaceholderPlayer::Idle { hovered }) => GridPlayer::Placeholder(
                PlaceholderPlayer::Idle { hovered: *hovered },
            ),
            GridPlayer::Placeholder(PlaceholderPlayer::Error { message, hovered }) => {
                GridPlayer::Placeholder(
                    PlaceholderPlayer::Error { message: message.clone(), hovered: *hovered },
                )
            },
        }
    }

    /// Whether the player is paused; nothing for a placeholder.
    pub fn is_paused(&self) -> (res: Option<bool>)
        ensures
            res == paused_of(*self),
    {
        match self {
            GridPlayer::Still(s) => Some(s.paused),
            GridPlayer::Placeholder(_) => None,
        }
    }

    /// Whether the player is muted; nothing for a placeholder.
    pub fn is_muted(&self) -> (res: Option<bool>)
        ensures
            res == muted_of(*self),
    {
        match self {
            GridPlayer::Still(s) => Some(s.muted),
            GridPlayer::Placeholder(_) => None,
        }
    }
}

pub open spec fn paused_of(p: GridPlayer) -> Option<bool> {
    match p {
        GridPlayer::Still(s) => Some(s.paused),
        GridPlayer::Placeholder(_) => None,
    }
}

pub open spec fn muted_of(p: GridPlayer) -> Option<bool> {
    match p {
        GridPlayer::Still(s) => Some(s.muted),
        GridPlayer::Placeholder(_) => None,
    }
}

/// The player after a tick, and what it reports.
pub open spec fn player_tick_of(p: GridPlayer, elapsed: u128) -> (GridPlayer, Option<StillUpdate>) {
    match p {
        GridPlayer::Still(s) => (GridPlayer::Still(tick_of(s, elapsed).0), tick_of(s, elapsed).1),
        GridPlayer::Placeholder(_) => (p, None),
    }
}

/// Whether a tick of `elapsed` keeps the player's position within what a
/// `Duration` holds (only a playing, undragged player moves).
pub open spec fn tick_fits(p: GridPlayer, elapsed: u128) -> bool {
    match p {
        GridPlayer::Still(s) => !s.paused && !s.dragging ==> s.position + elapsed <= MAX_NANOS,
        GridPlayer::Placeholder(_) => true,
    }
}

/// The indices in `[lo, hi)` of the players whose tick reports the end of
/// their medium, from the highest down.
pub open spec fn ended_between(ps: Seq<GridPlayer>, elapsed: u128, lo: int, hi: int) -> Seq<usize>
    decreases hi - lo,
{
    if lo >= hi {
        Seq::<usize>::empty()
    } else {
        let rest = ended_between(ps, elapsed, lo + 1, hi);
        if player_tick_of(ps[lo], elapsed).1 == Some(StillUpdate::EndOfStream) {
            rest.push(lo as usize)
        } else {
            rest
        }
    }
}

/// The players after a tick of each.
pub open spec fn ticked(ps: Seq<GridPlayer>, elapsed: u128) -> Seq<GridPlayer> {
    Seq::new(ps.len(), |i: int| player_tick_of(ps[i], elapsed).0)
}

/// Whether two settings hold the same sources and arrangement.
pub open spec fn same_settings(a: Settings, b: Settings) -> bool {
    &&& source_views(a.sources@) == source_views(b.sources@)
    &&& a.content_fit == b.content_fit
    &&& a.orientation == b.orientation
    &&& a.orientation_limit == b.orientation_limit
}

/// Whether some source holds some text.
pub open spec fn any_source(s: Seq<SourceView>) -> bool {
    exists|i: int| 0 <= i < s.len() && !source_is_empty(#[trigger] s[i])
}

/// A grid: the settings it draws media by, and its players.
#[derive(Debug)]
pub struct Grid {
    pub settings: Settings,
    pub players: Vec<GridPlayer>,
}

fn idle_player() -> (res: GridPlayer)
    ensures
        res == GridPlayer::Placeholder(PlaceholderPlayer::Idle { hovered: false }),
{
    GridPlayer::Placeholder(PlaceholderPlayer::Idle { hovered: false })
}

fn copy_settings(s: &Settings) -> (res: Settings)
    ensures
        same_settings(res, *s),
{
    let mut sources: Vec<Source> = Vec::new();
    let mut i: usize = 0;
    while i < s.sources.len()
        invariant
            i <= s.sources.len(),
            source_views(sources@) == source_views(s.sources@).subrange(0, i as int),
        decreases s.sources.len() - i,
    {
        let ghost before = sources@;
        sources.push(s.sources[i].copy());
        assert(source_views(sources@) =~= source_views(before).push(s.sources[i as int]@));
        assert(source_views(s.sources@).subrange(0, i + 1) =~= source_views(s.sources@).subrange(
            0,
            i as int,
        ).push(s.sources[i as int]@));
        i += 1;
    }
    assert(source_views(s.sources@).subrange(0, s.sources.len() as int) =~= source_views(
        s.sources@,
    ));
    Settings {
        sources,
        content_fit: s.content_fit,
        orientation: s.orientation,
        orientation_limit: s.orientation_limit,
    }
}

fn sources_equal(a: &Vec<Source>, b: &Vec<Source>) -> (res: bool)
    ensures
        res == (source_views(a@) == source_views(b@)),
{
    if a.len() != b.len() {
        assert(source_views(a@).len() != source_views(b@).len());
        return false;
    }
    let mut i: usize = 0;
    while i < a.len()
        invariant
            i <= a.len() == b.len(),
            forall|k: int| 0 <= k < i ==> a@[k]@ == b@[k]@,
        decreases a.len() - i,
    {
        if !a[i].same_as(&b[i]) {
            assert(source_views(a@)[i as int] != source_views(b@)[i as int]);
            return false;
        }
        i += 1;
    }
    assert(source_views(a@) =~= source_views(b@));
    true
}

impl Grid {
    /// A grid with the settings: one idle player where there are sources,
    /// none otherwise.
    pub fn new(settings: Settings) -> (res: Self)
        ensures
            res.settings == settings,
            res.players@ == if settings.sources@.len() == 0 {
                Seq::<GridPlayer>::empty()
            } else {
                seq![GridPlayer::Placeholder(PlaceholderPlayer::Idle { hovered: false })]
            },
    {
        let mut players: Vec<GridPlayer> = Vec::new();
        if settings.sources.len() > 0 {
            players.push(idle_player());
            assert(players@ =~= seq![GridPlayer::Placeholder(PlaceholderPlayer::Idle { hovered: false })]);
        }
        Grid { settings, players }
    }

    /// A grid with the settings and `count` idle players.
    pub fn new_with_players(settings: Settings, count: usize) -> (res: Self)
        ensures
            res.settings == settings,
            res.players@ == Seq::new(
                count as nat,
                |i: int| GridPlayer::Placeholder(PlaceholderPlayer::Idle { hovered: false }),
            ),
    {
        let mut players: Vec<GridPlayer> = Vec::new();
        let mut i: usize = 0;
        while i < count
            invariant
                i <= count,
                players@ == Seq::new(
                    i as nat,
                    |k: int| GridPlayer::Placeholder(PlaceholderPlayer::Idle { hovered: false }),
                ),
            decreases count - i,
        {
            players.push(idle_player());
            i += 1;
            assert(players@ =~= Seq::new(
                i as nat,
                |k: int| GridPlayer::Placeholder(PlaceholderPlayer::Idle { hovered: false }),
            ));
        }
        Grid { settings, players }
    }

    /// Whether the grid has no players.
    pub fn is_idle(&self) -> (res: bool)
        ensures
            res == (self.players@.len() == 0),
    {
        self.players.len() == 0
    }

    /// The number of players.
    pub fn total_players(&self) -> (res: usize)
        ensures
            res == self.players@.len(),
    {
        self.players.len()
    }

    /// The players' numbers, from zero.
    pub fn player_ids(&self) -> (res: Vec<usize>)
        ensures
            res@ == Seq::new(self.players@.len(), |i: int| i as usize),
    {
        let mut out: Vec<usize> = Vec::new();
        let mut i: usize = 0;
        while i < self.players.len()
            invariant
                i <= self.players.len(),
                out@ == Seq::new(i as nat, |k: int| k as usize),
            decreases self.players.len() - i,
        {
            out.push(i);
            i += 1;
            assert(out@ =~= Seq::new(i as nat, |k: int| k as usize));
        }
        out
    }

    /// A copy of the grid's settings.
    pub fn settings(&self) -> (res: Settings)
        ensures
            same_settings(res, self.settings),
    {
        copy_settings(&self.settings)
    }

    /// What the players say together of pausing: `false` where any plays,
    /// else `true` where any is paused, else nothing.
    pub fn all_paused(&self) -> (res: Option<bool>)
        ensures
            res == combined_flag_of(self.players@.map_values(|p: GridPlayer| paused_of(p))),
    {
        let mut states: Vec<Option<bool>> = Vec::new();
        let mut i: usize = 0;
        while i < self.players.len()
            invariant
                i <= self.players.len(),
                states@ == self.players@.subrange(0, i as int).map_values(|p: GridPlayer| paused_of(p)),
            decreases self.players.len() - i,
        {
            states.push(self.players[i].is_paused());
            i += 1;
            assert(states@ =~= self.players@.subrange(0, i as int).map_values(
                |p: GridPlayer| paused_of(p),
            ));
        }
        assert(self.players@.subrange(0, self.players@.len() as int) =~= self.players@);
        combined_flag(&states)
    }

    /// What the players say together of muting.
    pub fn all_muted(&self) -> (res: Option<bool>)
        ensures
            res == combined_flag_of(self.players@.map_values(|p: GridPlayer| muted_of(p))),
    {
        let mut states: Vec<Option<bool>> = Vec::new();
        let mut i: usize = 0;
        while i < self.players.len()
            invariant
                i <= self.players.len(),
                states@ == self.players@.subrange(0, i as int).map_values(|p: GridPlayer| muted_of(p)),
            decreases self.players.len() - i,
        {
            states.push(self.players[i].is_muted());
            i += 1;
            assert(states@ =~= self.players@.subrange(0, i as int).map_values(
                |p: GridPlayer| muted_of(p),
            ));
        }
        assert(self.players@.subrange(0, self.players@.len() as int) =~= self.players@);
        combined_flag(&states)
    }

    /// The playback settings as this grid's players see them: paused and
    /// muted as the players say together, where they say anything.
    pub fn playback(&self, playback: &Playback) -> (res: Playback)
        ensures
            res == (Playback {
                paused: match combined_flag_of(self.players@.map_values(|p: GridPlayer| paused_of(p))) {
                    Some(b) => b,
                    None => playback.paused,
                },
                muted: match combined_flag_of(self.players@.map_values(|p: GridPlayer| muted_of(p))) {
                    Some(b) => b,
                    None => playback.muted,
                },
                ..*playback
            }),
    {
        playback.with_paused_maybe(self.all_paused()).with_muted_maybe(self.all_muted())
    }

    /// Removes the player with the number.
    pub fn remove(&mut self, id: usize)
        requires
            id < old(self).players@.len(),
        ensures
            final(self).players@ == old(self).players@.remove(id as int),
            final(self).settings == old(self).settings,
    {
        self.players.remove(id);
    }

    /// Starts the player with the number over from the beginning.
    pub fn restart(&mut self, id: usize)
        requires
            id < old(self).players@.len(),
        ensures
            final(self).players@ == old(self).players@.update(
                id as int,
                match old(self).players@[id as int] {
                    GridPlayer::Still(s) => GridPlayer::Still(StillPlayer { position: 0, ..s }),
                    p => p,
                },
            ),
            final(self).settings == old(self).settings,
    {
        let mut p = self.players[id].copy();
        match &mut p {
            GridPlayer::Still(s) => s.restart(),
            GridPlayer::Placeholder(_) => {},
        }
        self.players[id] = p;
    }

    /// Takes new settings, and says whether they differ from the grid's. A
    /// grid with no players gets an idle one where some new source holds
    /// text.
    pub fn set_settings(&mut self, settings: Settings) -> (res: Change)
        ensures
            final(self).players@ == if old(self).players@.len() == 0 && any_source(
                source_views(settings.sources@),
            ) {
                seq![GridPlayer::Placeholder(PlaceholderPlayer::Idle { hovered: false })]
            } else {
                old(self).players@
            },
            res == (if same_settings(old(self).settings, settings) {
                Change::Same
            } else {
                Change::Different
            }),
            res == Change::Same ==> final(self).settings == old(self).settings,
            res == Change::Different ==> final(self).settings == settings,
    {
        if self.players.len() == 0 {
            let mut any = false;
            let mut i: usize = 0;
            while i < settings.sources.len()
                invariant
                    i <= settings.sources.len(),
                    any == exists|k: int|
                        0 <= k < i && !source_is_empty(#[trigger] source_views(settings.sources@)[k]),
                decreases settings.sources.len() - i,
            {
                if !settings.sources[i].is_empty() {
                    assert(!source_is_empty(source_views(settings.sources@)[i as int]));
                    any = true;
                }
                i += 1;
            }
            if any {
                self.players.push(idle_player());
                assert(self.players@ =~= seq![
                    GridPlayer::Placeholder(PlaceholderPlayer::Idle { hovered: false }),
                ]);
            }
        }
        let same = sources_equal(&self.settings.sources, &settings.sources)
            && self.settings.content_fit == settings.content_fit
            && self.settings.orientation == settings.orientation
            && self.settings.orientation_limit == settings.orientation_limit;
        if same {
            Change::Same
        } else {
            self.settings = settings;
            Change::Different
        }
    }

    /// Lets `elapsed` pass for every player, from the last to the first, and
    /// gives the numbers of those whose medium ended (from the highest
    /// down): each is to get new media, or, where there is none, start
    /// over.
    pub fn tick(&mut self, elapsed: u128) -> (res: Vec<usize>)
        requires
            forall|i: int| 0 <= i < old(self).players@.len() ==> tick_fits(
                #[trigger] old(self).players@[i],
                elapsed,
            ),
        ensures
            final(self).players@ == ticked(old(self).players@, elapsed),
            res@ == ended_between(old(self).players@, elapsed, 0, old(self).players@.len() as int),
            final(self).settings == old(self).settings,
    {
        let ghost before = self.players@;
        let n = self.players.len();
        let mut ended: Vec<usize> = Vec::new();
        let mut i: usize = n;
        while i > 0
            invariant
                i <= n == before.len() == self.players@.len(),
                self.settings == old(self).settings,
                before == old(self).players@,
                forall|k: int| 0 <= k < i ==> self.players@[k] == before[k],
                forall|k: int| i <= k < n ==> self.players@[k] == player_tick_of(before[k], elapsed).0,
                forall|k: int| 0 <= k < n ==> tick_fits(#[trigger] before[k], elapsed),
                ended@ == ended_between(before, elapsed, i as int, n as int),
            decreases i,
        {
            i -= 1;
            let mut p = self.players[i].copy();
            assert(tick_fits(before[i as int], elapsed));
            let update = match &mut p {
                GridPlayer::Still(s) => s.tick(elapsed),
                GridPlayer::Placeholder(q) => q.tick(elapsed),
            };
            self.players[i] = p;
            if update == Some(StillUpdate::EndOfStream) {
                ended.push(i);
            }
        }
        assert(self.players@ =~= ticked(before, elapsed));
        ended
    }
}

/// The numbers that a tick of a grid gives are those of players that
/// reached their end, each once, from the highest down, and every player
/// that reached its end is among them.
pub proof fn law_tick_reports_ended_players(ps: Seq<GridPlayer>, elapsed: u128, lo: int, hi: int)
    requires
        0 <= lo <= hi <= ps.len(),
        hi <= usize::MAX,
    ensures
        forall|j: int|
            0 <= j < ended_between(ps, elapsed, lo, hi).len() ==> {
                let i = #[trigger] ended_between(ps, elapsed, lo, hi)[j] as int;
                &&& lo <= i < hi
                &&& player_tick_of(ps[i], elapsed).1 == Some(StillUpdate::EndOfStream)
            },
        forall|a: int, b: int|
            0 <= a < b < ended_between(ps, elapsed, lo, hi).len() ==> ended_between(
                ps,
                elapsed,
                lo,
                hi,
            )[a] > ended_between(ps, elapsed, lo, hi)[b],
        forall|i: int|
            lo <= i < hi && player_tick_of(ps[i], elapsed).1 == Some(StillUpdate::EndOfStream)
                ==> ended_between(ps, elapsed, lo, hi).contains(i as usize),
    decreases hi - lo,
{
    if lo < hi {
        law_tick_reports_ended_players(ps, elapsed, lo + 1, hi);
        let rest = ended_between(ps, elapsed, lo + 1, hi);
        if player_tick_of(ps[lo], elapsed).1 == Some(StillUpdate::EndOfStream) {
            let r = rest.push(lo as usize);
            assert forall|i: int|
                lo <= i < hi && player_tick_of(ps[i], elapsed).1 == Some(StillUpdate::EndOfStream)
                    implies r.contains(i as usize) by {
                if i == lo {
                    assert(r[rest.len() as int] == lo as usize);
                } else {
                    let j = choose|j: int| 0 <= j < rest.len() && rest[j] == i as usize;
                    assert(r[j] == i as usize);
                }
            }
        }
    }
}

/// A placeholder never ends, and a still player ends exactly as its own
/// tick says.
pub proof fn law_placeholders_never_end(p: PlaceholderPlayer, s: StillPlayer, elapsed: u128)
    ensures
        player_tick_of(GridPlayer::Placeholder(p), elapsed) == (GridPlayer::Placeholder(p), None::<StillUpdate>),
        player_tick_of(GridPlayer::Still(s), elapsed).1 == tick_of(s, elapsed).1,
{
}

} // verus!
