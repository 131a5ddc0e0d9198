//! What a grid of players is set up with.
use vstd::prelude::*;
use crate::media::{source_views, Source, SourceView};
use crate::resource::playlist::{ContentFit, Orientation, OrientationLimit};

verus! {

/// The sources and arrangement of a grid.
#[derive(Clone, Debug, Default, PartialEq, Eq)]
pub struct Settings {
    pub sources: Vec<Source>,
    pub content_fit: ContentFit,
    pub orientation: Orientation,
    pub orientation_limit: OrientationLimit,
}

impl Settings {
    /// The settings with one more source at the end.
    pub fn with_source(self, source: Source) -> (res: Self)
        ensures
            source_views(res.sources@) == source_views(self.sources@).push(source@),
            res.content_fit == self.content_fit,
            res.orientation == self.orientation,
            res.orientation_limit == self.orientation_limit,
    {
        let mut s = self;
        let ghost before = s.sources@;
        s.sources.push(source);
        assert(source_views(s.sources@) =~= source_views(before).push(source@));
        s
    }

    /// The settings with more sources at the end.
    pub fn with_sources(self, sources: Vec<Source>) -> (res: Self)
        ensures
            source_views(res.sources@) == source_views(self.sources@) + source_views(sources@),
            res.content_fit == self.content_fit,
            res.orientation == self.orientation,
            res.orientation_limit == self.orientation_limit,
    {
        let mut s = self;
        let mut more = sources;
        let ghost before = s.sources@;
        let ghost added = more@;
        s.sources.append(&mut more);
        assert(source_views(s.sources@) =~= source_views(before) + source_views(added));
        s
    }
}

/// What a set of players says together of a flag (paused, muted): `false`
/// where any says `false`, else `true` where any says `true`, else nothing.
pub open spec fn combined_flag_of(states: Seq<Option<bool>>) -> Option<bool> {
    if exists|i: int| 0 <= i < states.len() && states[i] == Some(false) {
        Some(false)
    } else if exists|i: int| 0 <= i < states.len() && states[i] == Some(true) {
        Some(true)
    } else {
        None
    }
}

/// What a set of players says together of a flag, from what each says.
pub fn combined_flag(states: &Vec<Option<bool>>) -> (res: Option<bool>)
    ensures
        res == combined_flag_of(states@),
{
    let mut relevant = false;
    let mut i: usize = 0;
    while i < states.len()
        invariant
            i <= states.len(),
            forall|k: int| 0 <= k < i ==> states@[k] != Some(false),
            relevant == exists|k: int| 0 <= k < i && states@[k] == Some(true),
        decreases states.len() - i,
    {
        match states[i] {
            Some(true) => {
                relevant = true;
            },
            Some(false) => {
                assert(states@[i as int] == Some(false));
                return Some(false);
            },
            None => {},
        }
        i += 1;
    }
    if relevant {
        Some(true)
    } else {
        None
    }
}

/// The largest count whose square a `usize` holds.
pub open spec fn root_bound() -> int {
    if usize::BITS == 64 {
        0xffff_ffff
    } else {
        0xffff
    }
}

/// The number of players per line of a grid: the least count, at least one,
/// whose square holds them all. The count's square must fit in a `usize`.
pub fn calculate_row_limit(players: usize) -> (res: usize)
    requires
        players <= root_bound() * root_bound(),
    ensures
        res >= 1,
        players <= res * res,
        res == 1 || (res - 1) * (res - 1) < players,
{
    assert(root_bound() * root_bound() <= usize::MAX) by {
        assert(usize::BITS == 32 || usize::BITS == 64);
        if usize::BITS == 64 {
            assert(usize::MAX == 0xffff_ffff_ffff_ffff);
            assert(0xffff_ffffint * 0xffff_ffffint <= 0xffff_ffff_ffff_ffffint) by (nonlinear_arith);
        } else {
            assert(usize::MAX == 0xffff_ffff);
            assert(0xffffint * 0xffffint <= 0xffff_ffffint) by (nonlinear_arith);
        }
    }
    let mut limit: usize = 1;
    loop
        invariant
            1 <= limit <= root_bound(),
            players <= root_bound() * root_bound(),
            root_bound() * root_bound() <= usize::MAX,
            limit == 1 || (limit - 1) * (limit - 1) < players,
        ensures
            1 <= limit,
            players <= limit * limit,
            limit == 1 || (limit - 1) * (limit - 1) < players,
        decreases root_bound() - limit,
    {
        assert(limit * limit <= root_bound() * root_bound()) by (nonlinear_arith)
            requires
                1 <= limit <= root_bound(),
        ;
        if players > limit * limit {
            assert(limit < root_bound()) by (nonlinear_arith)
                requires
                    players > limit * limit,
                    players <= root_bound() * root_bound(),
                    1 <= limit <= root_bound(),
            ;
            limit += 1;
        } else {
            break;
        }
    }
    limit
}

} // verus!
