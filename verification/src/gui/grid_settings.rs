//! The dialog that edits a grid's settings: its list of sources, the tab
//! shown, and how the grid arranges its media.
use vstd::prelude::*;
use crate::gui::grid::Settings;
use crate::gui::kinds::GridTab;
use crate::media::{
    reset_source, source_is_empty, source_of_kind, source_text, source_views, Source, SourceKind,
    SourceView,
};
use crate::path::{plain, StrictPathView};
use crate::resource::playlist::{ContentFit, Orientation, OrientationLimit, parse_count_of};

verus! {

/// Which way a source moves in the list.
#[derive(Clone, Copy, Debug, PartialEq, Eq)]
pub enum MoveDirection {
    Up,
    Down,
}

/// An edit of the list of sources.
#[derive(Clone, Debug, PartialEq, Eq)]
pub enum EditAction {
    /// Add an empty path source at the end.
    Add,
    /// Replace the text of the source at the index.
    Change(usize, String),
    /// Remove the source at the index.
    Remove(usize),
    /// Swap the source at the index with its neighbour in the direction.
    Move(usize, MoveDirection),
}

/// What the user does in the dialog.
#[derive(Clone, Debug, PartialEq, Eq)]
pub enum GridSettingsEvent {
    EditedSource { action: EditAction },
    EditedSourceKind { index: usize, kind: SourceKind },
    SelectedGridTab { tab: GridTab },
    EditedGridContentFit { content_fit: ContentFit },
    EditedGridOrientation { orientation: Orientation },
    EditedGridOrientationLimitKind { fixed: bool },
    EditedGridOrientationLimit { raw_limit: String },
    Save,
}

/// What the dialog asks of the application.
#[derive(Clone, Copy, Debug, PartialEq, Eq)]
pub enum GridSettingsUpdate {
    /// Scroll the list of sources to its end.
    ScrollDown,
    /// The settings are saved for the grid: they are the editor's settings.
    Saved,
}

/// The state of the dialog: the tab shown, the settings being edited, and
/// the text last entered for the orientation limit.
#[derive(Debug)]
pub struct GridSettingsEditor {
    pub tab: GridTab,
    pub settings: Settings,
    pub raw_limit: String,
}

/// The index that a source moves to.
pub open spec fn move_target(index: int, direction: MoveDirection) -> int {
    match direction {
        MoveDirection::Up => index - 1,
        MoveDirection::Down => index + 1,
    }
}

/// The sources that hold some text, in their order.
pub open spec fn non_empty_sources(s: Seq<SourceView>) -> Seq<SourceView>
    decreases s.len(),
{
    if s.len() == 0 {
        s
    } else if source_is_empty(s.last()) {
        non_empty_sources(s.drop_last())
    } else {
        non_empty_sources(s.drop_last()).push(s.last())
    }
}

/// Saving keeps just the sources that hold some text: every kept source
/// holds some, and a source is kept exactly where it was in the list and
/// holds some text.
pub proof fn law_save_keeps_non_empty(s: Seq<SourceView>)
    ensures
        forall|k: int|
            0 <= k < non_empty_sources(s).len() ==> !source_is_empty(
                #[trigger] non_empty_sources(s)[k],
            ),
        forall|x: SourceView|
            #[trigger] non_empty_sources(s).contains(x) <==> (s.contains(x) && !source_is_empty(x)),
    decreases s.len(),
{
    if s.len() > 0 {
        let p = s.drop_last();
        law_save_keeps_non_empty(p);
        let np = non_empty_sources(p);
        assert(s =~= p.push(s.last()));
        assert forall|x: SourceView|
            #[trigger] non_empty_sources(s).contains(x) <==> (s.contains(x) && !source_is_empty(x)) by {
            if s.contains(x) {
                let k = choose|k: int| 0 <= k < s.len() && s[k] == x;
                if k < p.len() {
                    assert(p[k] == x);
                }
            }
            if p.contains(x) {
                let k = choose|k: int| 0 <= k < p.len() && p[k] == x;
                assert(s[k] == x);
            }
            if !source_is_empty(s.last()) {
                if np.push(s.last()).contains(x) {
                    let k = choose|k: int| 0 <= k < np.len() + 1 && np.push(s.last())[k] == x;
                    if k < np.len() {
                        assert(np[k] == x);
                    }
                }
                if np.contains(x) {
                    let k = choose|k: int| 0 <= k < np.len() && np[k] == x;
                    assert(np.push(s.last())[k] == x);
                }
                assert(np.push(s.last())[np.len() as int] == s.last());
            }
        }
    }
}

/// Whether the event can be applied to a list of `len` sources: indices
/// must name a source, and a move must stay inside the list.
pub open spec fn event_fits(event: GridSettingsEvent, len: int) -> bool {
    match event {
        GridSettingsEvent::EditedSource { action } => match action {
            EditAction::Change(i, _) => i < len,
            EditAction::Remove(i) => i < len,
            EditAction::Move(i, d) => i < len && 0 <= move_target(i as int, d) < len,
            EditAction::Add => true,
        },
        GridSettingsEvent::EditedSourceKind { index, .. } => index < len,
        _ => true,
    }
}

/// The sources after the event.
pub open spec fn sources_after(s: Seq<SourceView>, event: GridSettingsEvent) -> Seq<SourceView> {
    match event {
        GridSettingsEvent::EditedSource { action } => match action {
            EditAction::Add => s.push(SourceView::Path(plain(Seq::<char>::empty()))),
            EditAction::Change(i, text) => s.update(i as int, reset_source(s[i as int], text@)),
            EditAction::Remove(i) => s.remove(i as int),
            EditAction::Move(i, d) => {
                let j = move_target(i as int, d);
                s.update(i as int, s[j]).update(j, s[i as int])
            },
        },
        GridSettingsEvent::EditedSourceKind { index, kind } => s.update(
            index as int,
            source_of_kind(s[index as int], kind),
        ),
        GridSettingsEvent::Save => non_empty_sources(s),
        _ => s,
    }
}

/// Whether `result` is the orientation limit after the event, given the
/// limit before and the text last entered for it: choosing a fixed limit
/// takes the count written there (or the default count), choosing an
/// automatic one drops the count, and new text changes a fixed limit where
/// it is a count.
pub open spec fn limit_after(
    limit: OrientationLimit,
    raw_limit: Seq<char>,
    event: GridSettingsEvent,
    result: OrientationLimit,
) -> bool {
    match event {
        GridSettingsEvent::EditedGridOrientationLimitKind { fixed } => if fixed {
            result matches OrientationLimit::Fixed(c) && c@ == match parse_count_of(raw_limit) {
                Some(n) => n,
                None => 4,
            }
        } else {
            result is Automatic
        },
        GridSettingsEvent::EditedGridOrientationLimit { raw_limit: r } => match (
            limit,
            parse_count_of(r@),
        ) {
            (OrientationLimit::Fixed(_), Some(n)) => result matches OrientationLimit::Fixed(c)
                && c@ == n,
            _ => result == limit,
        },
        _ => result == limit,
    }
}

/// What the dialog reports after the event.
pub open spec fn update_after(event: GridSettingsEvent) -> Option<GridSettingsUpdate> {
    match event {
        GridSettingsEvent::EditedSource { action: EditAction::Add } => Some(
            GridSettingsUpdate::ScrollDown,
        ),
        GridSettingsEvent::Save => Some(GridSettingsUpdate::Saved),
        _ => None,
    }
}

/// The sources that hold some text, in their order.
fn keep_non_empty(sources: &Vec<Source>) -> (res: Vec<Source>)
    ensures
        source_views(res@) == non_empty_sources(source_views(sources@)),
{
    let mut out: Vec<Source> = Vec::new();
    let mut i: usize = 0;
    while i < sources.len()
        invariant
            i <= sources.len(),
            source_views(out@) == non_empty_sources(source_views(sources@).subrange(0, i as int)),
        decreases sources.len() - i,
    {
        let ghost all = source_views(sources@);
        assert(all.subrange(0, i + 1).drop_last() =~= all.subrange(0, i as int));
        assert(all.subrange(0, i + 1).last() == sources[i as int]@);
        if !sources[i].is_empty() {
            let ghost before = out@;
            out.push(sources[i].copy());
            assert(source_views(out@) =~= source_views(before).push(sources[i as int]@));
        }
        i += 1;
    }
    assert(source_views(sources@).subrange(0, sources.len() as int) =~= source_views(sources@));
    out
}

impl GridSettingsEditor {
    /// The dialog for a grid's settings, on its sources tab: an empty list
    /// of sources gets one empty path source to fill in, and the limit's
    /// text is its count (the default count for an automatic limit).
    pub fn new(settings: Settings) -> (res: Self)
        ensures
            res.tab == GridTab::Sources,
            source_views(res.settings.sources@) == if settings.sources@.len() == 0 {
                seq![SourceView::Path(plain(Seq::<char>::empty()))]
            } else {
                source_views(settings.sources@)
            },
            res.settings.content_fit == settings.content_fit,
            res.settings.orientation == settings.orientation,
            res.settings.orientation_limit == settings.orientation_limit,
            res.raw_limit@ == crate::prelude::decimal(
                match settings.orientation_limit {
                    OrientationLimit::Fixed(c) => c@,
                    OrientationLimit::Automatic => 4,
                },
            ),
    {
        let mut settings = settings;
        if settings.sources.len() == 0 {
            settings.sources.push(Source::default());
            assert(source_views(settings.sources@) =~= seq![
                SourceView::Path(plain(Seq::<char>::empty())),
            ]);
        }
        let raw_limit = settings.orientation_limit.text();
        GridSettingsEditor { tab: GridTab::Sources, settings, raw_limit }
    }

    /// Applies what the user did, and says what the application should do.
    pub fn update(&mut self, event: GridSettingsEvent) -> (res: Option<GridSettingsUpdate>)
        requires
            event_fits(event, old(self).settings.sources@.len() as int),
        ensures
            source_views(final(self).settings.sources@) == sources_after(
                source_views(old(self).settings.sources@),
                event,
            ),
            final(self).tab == match event {
                GridSettingsEvent::SelectedGridTab { tab } => tab,
                _ => old(self).tab,
            },
            final(self).settings.content_fit == match event {
                GridSettingsEvent::EditedGridContentFit { content_fit } => content_fit,
                _ => old(self).settings.content_fit,
            },
            final(self).settings.orientation == match event {
                GridSettingsEvent::EditedGridOrientation { orientation } => orientation,
                _ => old(self).settings.orientation,
            },
            limit_after(
                old(self).settings.orientation_limit,
                old(self).raw_limit@,
                event,
                final(self).settings.orientation_limit,
            ),
            final(self).raw_limit@ == match event {
                GridSettingsEvent::EditedGridOrientationLimit { raw_limit } => raw_limit@,
                _ => old(self).raw_limit@,
            },
            res == update_after(event),
    {
        let ghost before = source_views(self.settings.sources@);
        match event {
            GridSettingsEvent::EditedSource { action } => match action {
                EditAction::Add => {
                    self.settings.sources.push(Source::default());
                    assert(source_views(self.settings.sources@) =~= before.push(
                        SourceView::Path(plain(Seq::<char>::empty())),
                    ));
                    Some(GridSettingsUpdate::ScrollDown)
                },
                EditAction::Change(index, text) => {
                    let mut source = self.settings.sources[index].copy();
                    source.reset(text);
                    self.settings.sources[index] = source;
                    assert(source_views(self.settings.sources@) =~= before.update(
                        index as int,
                        reset_source(before[index as int], text@),
                    ));
                    None
                },
                EditAction::Remove(index) => {
                    self.settings.sources.remove(index);
                    assert(source_views(self.settings.sources@) =~= before.remove(index as int));
                    None
                },
                EditAction::Move(index, direction) => {
                    let len = self.settings.sources.len();
                    assert(len == before.len());
                    let other = match direction {
                        MoveDirection::Up => index - 1,
                        MoveDirection::Down => index + 1,
                    };
                    let a = self.settings.sources[index].copy();
                    let b = self.settings.sources[other].copy();
                    self.settings.sources[index] = b;
                    self.settings.sources[other] = a;
                    assert(source_views(self.settings.sources@) =~= before.update(
                        index as int,
                        before[other as int],
                    ).update(other as int, before[index as int]));
                    None
                },
            },
            GridSettingsEvent::EditedSourceKind { index, kind } => {
                let mut source = self.settings.sources[index].copy();
                source.set_kind(kind);
                self.settings.sources[index] = source;
                assert(source_views(self.settings.sources@) =~= before.update(
                    index as int,
                    source_of_kind(before[index as int], kind),
                ));
                None
            },
            GridSettingsEvent::SelectedGridTab { tab } => {
                self.tab = tab;
                None
            },
            GridSettingsEvent::EditedGridContentFit { content_fit } => {
                self.settings.content_fit = content_fit;
                None
            },
            GridSettingsEvent::EditedGridOrientation { orientation } => {
                self.settings.orientation = orientation;
                None
            },
            GridSettingsEvent::EditedGridOrientationLimitKind { fixed } => {
                self.settings.orientation_limit = OrientationLimit::of_kind(
                    fixed,
                    self.raw_limit.as_str(),
                );
                None
            },
            GridSettingsEvent::EditedGridOrientationLimit { raw_limit } => {
                self.settings.orientation_limit = self.settings.orientation_limit.edited(
                    raw_limit.as_str(),
                );
                self.raw_limit = raw_limit;
                None
            },
            GridSettingsEvent::Save => {
                let kept = keep_non_empty(&self.settings.sources);
                self.settings.sources = kept;
                Some(GridSettingsUpdate::Saved)
            },
        }
    }
}

/// Removing the source at an index leaves exactly the other sources, in
/// their order: those before it stay where they were, and those after it
/// move up by one.
pub proof fn law_remove_takes_out_that_source(s: Seq<SourceView>, i: usize)
    requires
        i < s.len(),
    ensures
        ({
            let r = sources_after(s, GridSettingsEvent::EditedSource { action: EditAction::Remove(i) });
            &&& r.len() == s.len() - 1
            &&& forall|k: int| 0 <= k < i ==> r[k] == s[k]
            &&& forall|k: int| i <= k < r.len() ==> r[k] == s[k + 1]
        }),
{
}

/// Moving a source swaps it with its neighbour in that direction (the one
/// before for up, the one after for down) and leaves the others alone.
pub proof fn law_move_swaps_with_neighbour(s: Seq<SourceView>, i: usize, d: MoveDirection)
    requires
        i < s.len(),
        0 <= move_target(i as int, d) < s.len(),
    ensures
        ({
            let j: int = if d is Up {
                i - 1
            } else {
                i + 1
            };
            let r = sources_after(s, GridSettingsEvent::EditedSource { action: EditAction::Move(i, d) });
            &&& r.len() == s.len()
            &&& r[i as int] == s[j]
            &&& r[j] == s[i as int]
            &&& forall|k: int| 0 <= k < s.len() && k != i && k != j ==> r[k] == s[k]
        }),
{
}

/// Adding puts one empty path source at the end; changing the text of a
/// source gives that source the new text and leaves the others alone.
pub proof fn law_add_and_change_sources(s: Seq<SourceView>, i: usize, text: String)
    requires
        i < s.len(),
    ensures
        ({
            let a = sources_after(s, GridSettingsEvent::EditedSource { action: EditAction::Add });
            &&& a.len() == s.len() + 1
            &&& a.subrange(0, s.len() as int) == s
            &&& a.last() == SourceView::Path(StrictPathView { raw: Seq::<char>::empty(), basis: None })
        }),
        ({
            let c = sources_after(
                s,
                GridSettingsEvent::EditedSource { action: EditAction::Change(i, text) },
            );
            &&& c.len() == s.len()
            &&& source_text(c[i as int]) == text@
            &&& (s[i as int] is Path <==> c[i as int] is Path)
            &&& forall|k: int| 0 <= k < s.len() && k != i ==> c[k] == s[k]
        }),
{
    let a = sources_after(s, GridSettingsEvent::EditedSource { action: EditAction::Add });
    assert(a.subrange(0, s.len() as int) =~= s);
}

/// Changing the kind of a source keeps its text: a path becomes a pattern
/// of its spelling, and a pattern a path (without basis) of its text; a
/// source of the asked kind stays as it is.
pub proof fn law_kind_change_keeps_text(s: Seq<SourceView>, i: usize, kind: SourceKind)
    requires
        i < s.len(),
    ensures
        ({
            let r = sources_after(s, GridSettingsEvent::EditedSourceKind { index: i, kind });
            &&& r.len() == s.len()
            &&& source_text(r[i as int]) == source_text(s[i as int])
            &&& (kind is Path <==> r[i as int] is Path)
            &&& (s[i as int] is Glob && kind is Path) ==> r[i as int] == SourceView::Path(
                StrictPathView { raw: source_text(s[i as int]), basis: None },
            )
            &&& forall|k: int| 0 <= k < s.len() && k != i ==> r[k] == s[k]
        }),
{
}

} // verus!
