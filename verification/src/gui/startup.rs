//! What the application starts with: the playlist named on the command
//! line or a grid of the sources given, the dialogs to show first, and the
//! media to look for.
use vstd::prelude::*;
use crate::gui::grid::Settings;
use crate::media::{source_views, Source};
use crate::path::StrictPathView;
use crate::path::StrictPath;
use crate::prelude::Error;
use crate::resource::playlist::{
    layout_sources, ContentFit, Orientation, OrientationLimit, Playlist,
};

verus! {

/// The layout that the window starts with.
#[derive(Debug)]
pub enum StartLayout {
    Playlist(Playlist),
    /// One grid with these settings.
    Grid(Settings),
}

/// How the application starts.
#[derive(Debug)]
pub struct Startup {
    pub playlist_path: Option<StrictPath>,
    pub playlist_dirty: bool,
    pub layout: StartLayout,
    /// Whether to open the settings of the first grid, for its sources to
    /// be filled in.
    pub edit_first_grid: bool,
    /// The errors to show, in a dialog shown after any other.
    pub errors: Vec<Error>,
    /// The sources to look for media in, if any.
    pub find_media: Option<Vec<Source>>,
}

/// Whether a grid's settings are the default ones apart from its sources.
pub open spec fn default_arrangement(s: Settings) -> bool {
    &&& s.content_fit == ContentFit::Scale
    &&& s.orientation == Orientation::Horizontal
    &&& s.orientation_limit == OrientationLimit::Automatic
}

/// The errors met on the way: the configuration's, then the playlist's.
pub open spec fn startup_errors(
    config_error: Option<Error>,
    loaded: Option<Result<Playlist, Error>>,
) -> Seq<Error> {
    let first = match config_error {
        Some(e) => seq![e],
        None => Seq::<Error>::empty(),
    };
    match loaded {
        Some(Err(e)) => first.push(e),
        _ => first,
    }
}

/// The path of the first source, where it is a path.
pub open spec fn first_path(sources: Seq<Source>) -> Option<StrictPathView> {
    if sources.len() > 0 && sources[0] is Path {
        Some(sources[0]->path@)
    } else {
        None
    }
}

fn copy_sources(sources: &Vec<Source>) -> (res: Vec<Source>)
    ensures
        source_views(res@) == source_views(sources@),
{
    let mut out: Vec<Source> = Vec::new();
    let mut i: usize = 0;
    while i < sources.len()
        invariant
            i <= sources.len(),
            source_views(out@) == source_views(sources@).subrange(0, i as int),
        decreases sources.len() - i,
    {
        let ghost before = out@;
        out.push(sources[i].copy());
        assert(source_views(out@) =~= source_views(before).push(sources[i as int]@));
        assert(source_views(sources@).subrange(0, i + 1) =~= source_views(sources@).subrange(
            0,
            i as int,
        ).push(sources[i as int]@));
        i += 1;
    }
    assert(source_views(sources@).subrange(0, sources.len() as int) =~= source_views(sources@));
    out
}

/// How the application starts, given the sources named on the command
/// line, the playlist read from the first of them where it names a
/// playlist file (`loaded` is given exactly then), and any error of
/// loading the configuration. A playlist that loads is used, saved and
/// clean, and its sources are searched; one that fails leaves an empty
/// grid and an error; otherwise one grid takes the sources (unsaved where
/// there are some, with its settings opened where there are none) and they
/// are searched.
pub fn startup(
    sources: Vec<Source>,
    loaded: Option<Result<Playlist, Error>>,
    config_error: Option<Error>,
) -> (res: Startup)
    requires
        loaded is Some ==> first_path(sources@) is Some,
    ensures
        match res.playlist_path {
            Some(p) => loaded matches Some(Ok(_)) && Some(p@) == first_path(sources@),
            None => !(loaded matches Some(Ok(_))),
        },
        res.playlist_dirty == (loaded is None && sources@.len() > 0),
        res.edit_first_grid == (loaded is None && sources@.len() == 0),
        res.errors@ == startup_errors(config_error, loaded),
        match loaded {
            Some(Ok(pl)) => res.layout == StartLayout::Playlist(pl) && (res.find_media matches Some(
                f,
            ) && source_views(f@) == layout_sources(pl.layout)),
            Some(Err(_)) => res.layout matches StartLayout::Grid(s) && s.sources@.len() == 0
                && default_arrangement(s) && res.find_media is None,
            None => res.layout matches StartLayout::Grid(s) && source_views(s.sources@)
                == source_views(sources@) && default_arrangement(s) && (res.find_media matches Some(
                f,
            ) && source_views(f@) == source_views(sources@)),
        },
{
    let mut errors: Vec<Error> = Vec::new();
    match config_error {
        Some(e) => {
            errors.push(e);
        },
        None => {},
    }
    match loaded {
        Some(Ok(pl)) => {
            let path = match &sources[0] {
                Source::Path { path } => path.copy(),
                Source::Glob { .. } => StrictPath::new(String::new()),
            };
            let found = pl.sources();
            assert(errors@ =~= startup_errors(config_error, loaded));
            Startup {
                playlist_path: Some(path),
                playlist_dirty: false,
                layout: StartLayout::Playlist(pl),
                edit_first_grid: false,
                errors,
                find_media: Some(found),
            }
        },
        Some(Err(e)) => {
            errors.push(e);
            assert(errors@ =~= startup_errors(config_error, loaded));
            Startup {
                playlist_path: None,
                playlist_dirty: false,
                layout: StartLayout::Grid(
                    Settings {
                        sources: Vec::new(),
                        content_fit: ContentFit::Scale,
                        orientation: Orientation::Horizontal,
                        orientation_limit: OrientationLimit::Automatic,
                    },
                ),
                edit_first_grid: false,
                errors,
                find_media: None,
            }
        },
        None => {
            let empty = sources.len() == 0;
            let found = copy_sources(&sources);
            assert(errors@ =~= startup_errors(config_error, loaded));
            Startup {
                playlist_path: None,
                playlist_dirty: !empty,
                layout: StartLayout::Grid(
                    Settings {
                        sources,
                        content_fit: ContentFit::Scale,
                        orientation: Orientation::Horizontal,
                        orientation_limit: OrientationLimit::Automatic,
                    },
                ),
                edit_first_grid: empty,
                errors,
                find_media: Some(found),
            }
        },
    }
}

/// The errors met on the way are shown in order: the configuration's
/// first, then the playlist's; nothing else adds one.
pub proof fn law_startup_errors_in_order(
    config_error: Option<Error>,
    loaded: Option<Result<Playlist, Error>>,
    e1: Error,
    e2: Error,
)
    ensures
        startup_errors(Some(e1), Some(Err(e2))) == seq![e1, e2],
        startup_errors(None, Some(Err(e2))) == seq![e2],
        startup_errors(Some(e1), None) == seq![e1],
        !(loaded matches Some(Err(_))) && config_error is None ==> startup_errors(config_error, loaded).len()
            == 0,
{
    assert(seq![e1].push(e2) =~= seq![e1, e2]);
    assert(Seq::<Error>::empty().push(e2) =~= seq![e2]);
}

} // verus!
