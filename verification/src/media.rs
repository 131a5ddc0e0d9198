//! Where media come from, and the lists of sources that playlists keep.
use vstd::prelude::*;
use crate::path::{plain, replace_raw_prefix_of, Host, StrictPath, StrictPathView};
use crate::text::{chars_of, is_blank_chars, is_blank_seq};

verus! {

/// A place to look for media: one path, or a glob pattern.
#[derive(Clone, Debug, PartialEq, Eq, Hash)]
pub enum Source {
    Path { path: StrictPath },
    Glob { pattern: String },
}

pub enum SourceView {
    Path(StrictPathView),
    Glob(Seq<char>),
}

impl View for Source {
    type V = SourceView;

    open spec fn view(&self) -> SourceView {
        match self {
            Source::Path { path } => SourceView::Path(path@),
            Source::Glob { pattern } => SourceView::Glob(pattern@),
        }
    }
}

pub open spec fn source_views(s: Seq<Source>) -> Seq<SourceView> {
    s.map_values(|x: Source| x@)
}

/// The kinds of source.
#[derive(Clone, Copy, Debug, Default, PartialEq, Eq)]
pub enum SourceKind {
    #[default]
    Path,
    Glob,
}

/// The text of a source: its path's raw spelling, or its pattern.
pub open spec fn source_text(v: SourceView) -> Seq<char> {
    match v {
        SourceView::Path(p) => p.raw,
        SourceView::Glob(t) => t,
    }
}

/// Whether a source holds no text but white space.
pub open spec fn source_is_empty(v: SourceView) -> bool {
    is_blank_seq(source_text(v))
}

/// The source with its text replaced (a path keeps its basis).
pub open spec fn reset_source(v: SourceView, text: Seq<char>) -> SourceView {
    match v {
        SourceView::Path(p) => SourceView::Path(StrictPathView { raw: text, basis: p.basis }),
        SourceView::Glob(_) => SourceView::Glob(text),
    }
}

/// The source as the given kind, keeping its text.
pub open spec fn source_of_kind(v: SourceView, kind: SourceKind) -> SourceView {
    match (v, kind) {
        (SourceView::Path(p), SourceKind::Glob) => SourceView::Glob(p.raw),
        (SourceView::Glob(t), SourceKind::Path) => SourceView::Path(plain(t)),
        _ => v,
    }
}

impl Default for Source {
    /// A path source with an empty path.
    fn default() -> (res: Self)
        ensures
            res@ == SourceView::Path(plain(Seq::<char>::empty())),
    {
        Source::Path { path: StrictPath::new(String::new()) }
    }
}

impl Source {
    /// The kind of the source.
    pub fn kind(&self) -> (res: SourceKind)
        ensures
            res == (if self is Path {
                SourceKind::Path
            } else {
                SourceKind::Glob
            }),
    {
        match self {
            Source::Path { .. } => SourceKind::Path,
            Source::Glob { .. } => SourceKind::Glob,
        }
    }

    /// The text of the source.
    pub fn raw(&self) -> (res: String)
        ensures
            res@ == source_text(self@),
    {
        match self {
            Source::Path { path } => path.raw(),
            Source::Glob { pattern } => pattern.clone(),
        }
    }

    /// Whether the source holds no text but white space.
    pub fn is_empty(&self) -> (res: bool)
        ensures
            res == source_is_empty(self@),
    {
        let text = self.raw();
        let cs = chars_of(text.as_str());
        is_blank_chars(&cs)
    }

    /// Replaces the text of the source (a path keeps its basis).
    pub fn reset(&mut self, text: String)
        ensures
            final(self)@ == reset_source(old(self)@, text@),
    {
        match self {
            Source::Path { path } => path.reset(text),
            Source::Glob { pattern } => {
                *pattern = text;
            },
        }
    }

    /// Turns the source into the given kind, keeping its text.
    pub fn set_kind(&mut self, kind: SourceKind)
        ensures
            final(self)@ == source_of_kind(old(self)@, kind),
    {
        let next = match (&*self, kind) {
            (Source::Path { path }, SourceKind::Glob) => Some(Source::Glob { pattern: path.raw() }),
            (Source::Glob { pattern }, SourceKind::Path) => Some(
                Source::Path { path: StrictPath::new(pattern.clone()) },
            ),
            _ => None,
        };
        match next {
            Some(n) => {
                *self = n;
            },
            None => {},
        }
    }

    /// A source for one path.
    pub fn new_path(path: StrictPath) -> (res: Self)
        ensures
            res@ == SourceView::Path(path@),
    {
        Source::Path { path }
    }

    /// Whether two sources are the same.
    pub fn same_as(&self, other: &Self) -> (res: bool)
        ensures
            res == (self@ == other@),
    {
        match (self, other) {
            (Source::Path { path: a }, Source::Path { path: b }) => a.same_as(b),
            (Source::Glob { pattern: a }, Source::Glob { pattern: b }) => {
                let e = *a == *b;
                e
            },
            _ => false,
        }
    }

    /// A copy of the source.
    pub fn copy(&self) -> (res: Self)
        ensures
            res@ == self@,
    {
        match self {
            Source::Path { path } => Source::Path { path: path.copy() },
            Source::Glob { pattern } => Source::Glob { pattern: pattern.clone() },
        }
    }
}

/// The placeholder that a source may begin with for the playlist's folder.
pub const PLAYLIST_PLACEHOLDER: &'static str = "<playlist>";

/// A source path with a leading `<playlist>` placeholder put in the folder
/// of the active playlist, or in the working directory where the playlist
/// is not saved yet; any other path is kept as it is.
pub fn resolve_playlist_placeholder(path: &StrictPath, playlist_dir: Option<&str>, host: &Host) -> (res:
    StrictPath)
    ensures
        res@ == replace_raw_prefix_of(
            path@,
            PLAYLIST_PLACEHOLDER@,
            match playlist_dir {
                Some(d) => d@,
                None => host@.cwd,
            },
        ),
{
    match playlist_dir {
        Some(d) => path.replace_raw_prefix(PLAYLIST_PLACEHOLDER, d),
        None => path.replace_raw_prefix(PLAYLIST_PLACEHOLDER, host.cwd()),
    }
}

/// The sources in order, each kept only where it did not come before.
pub open spec fn unique_views(s: Seq<SourceView>) -> Seq<SourceView>
    decreases s.len(),
{
    if s.len() == 0 {
        Seq::<SourceView>::empty()
    } else if s.drop_last().contains(s.last()) {
        unique_views(s.drop_last())
    } else {
        unique_views(s.drop_last()).push(s.last())
    }
}

/// The sources in order with repeats left out (the first of equal ones
/// stays).
pub fn unique_sources(sources: &Vec<Source>) -> (res: Vec<Source>)
    ensures
        source_views(res@) == unique_views(source_views(sources@)),
{
    let mut out: Vec<Source> = Vec::new();
    let mut i: usize = 0;
    while i < sources.len()
        invariant
            i <= sources.len(),
            source_views(out@) == unique_views(source_views(sources@).subrange(0, i as int)),
        decreases sources.len() - i,
    {
        let ghost all = source_views(sources@);
        let ghost next = all.subrange(0, i + 1);
        assert(next.drop_last() =~= all.subrange(0, i as int));
        assert(next.last() == sources[i as int]@);
        let mut seen = false;
        let mut k: usize = 0;
        while k < i
            invariant
                k <= i < sources.len(),
                seen == exists|m: int| 0 <= m < k && sources@[m]@ == sources@[i as int]@,
            decreases i - k,
        {
            if sources[k].same_as(&sources[i]) {
                seen = true;
            }
            k += 1;
        }
        proof {
            let prev = all.subrange(0, i as int);
            if seen {
                let m = choose|m: int| 0 <= m < i && sources@[m]@ == sources@[i as int]@;
                assert(prev[m] == sources@[m]@);
                assert(prev.contains(next.last()));
            } else {
                assert forall|m: int| 0 <= m < prev.len() implies prev[m] != next.last() by {
                    assert(prev[m] == sources@[m]@);
                }
            }
        }
        if !seen {
            let ghost before = out@;
            out.push(sources[i].copy());
            assert(source_views(out@) =~= source_views(before).push(sources[i as int]@));
        }
        i += 1;
    }
    assert(source_views(sources@).subrange(0, sources.len() as int) =~= source_views(sources@));
    out
}

proof fn lemma_push_contains(s: Seq<SourceView>, v: SourceView, x: SourceView)
    ensures
        s.push(v).contains(x) <==> (s.contains(x) || x == v),
{
    if s.push(v).contains(x) {
        let k = choose|k: int| 0 <= k < s.push(v).len() && s.push(v)[k] == x;
        if k < s.len() {
            assert(s[k] == x);
        }
    }
    if s.contains(x) {
        let k = choose|k: int| 0 <= k < s.len() && s[k] == x;
        assert(s.push(v)[k] == x);
    }
    if x == v {
        assert(s.push(v)[s.len() as int] == x);
    }
}

proof fn lemma_unique_views(s: Seq<SourceView>)
    ensures
        forall|x: SourceView| s.contains(x) <==> #[trigger] unique_views(s).contains(x),
        forall|a: int, b: int|
            0 <= a < b < unique_views(s).len() ==> unique_views(s)[a] != unique_views(s)[b],
    decreases s.len(),
{
    if s.len() > 0 {
        let p = s.drop_last();
        let v = s.last();
        lemma_unique_views(p);
        assert(s =~= p.push(v));
        let up = unique_views(p);
        let u = unique_views(s);
        assert forall|x: SourceView| s.contains(x) <==> #[trigger] u.contains(x) by {
            lemma_push_contains(p, v, x);
            lemma_push_contains(up, v, x);
        }
        if !p.contains(v) {
            assert(u == up.push(v));
            assert(!up.contains(v));
            assert forall|a: int, b: int| 0 <= a < b < u.len() implies u[a] != u[b] by {
                if b == up.len() {
                    assert(u[a] == up[a]);
                    assert(u[b] == v);
                } else {
                    assert(u[a] == up[a]);
                    assert(u[b] == up[b]);
                }
            }
        }
    }
}

proof fn lemma_concat_contains(p: Seq<SourceView>, q: Seq<SourceView>, x: SourceView)
    ensures
        (p + q).contains(x) <==> (p.contains(x) || q.contains(x)),
{
    if (p + q).contains(x) {
        let k = choose|k: int| 0 <= k < (p + q).len() && (p + q)[k] == x;
        if k < p.len() {
            assert(p[k] == x);
        } else {
            assert(q[k - p.len()] == x);
        }
    }
    if p.contains(x) {
        let k = choose|k: int| 0 <= k < p.len() && p[k] == x;
        assert((p + q)[k] == x);
    }
    if q.contains(x) {
        let k = choose|k: int| 0 <= k < q.len() && q[k] == x;
        assert((p + q)[p.len() + k] == x);
    }
}

proof fn lemma_unique_of_distinct(s: Seq<SourceView>)
    requires
        forall|a: int, b: int| 0 <= a < b < s.len() ==> s[a] != s[b],
    ensures
        unique_views(s) == s,
    decreases s.len(),
{
    if s.len() > 0 {
        let p = s.drop_last();
        assert forall|a: int, b: int| 0 <= a < b < p.len() implies p[a] != p[b] by {
            assert(p[a] == s[a] && p[b] == s[b]);
        }
        lemma_unique_of_distinct(p);
        if p.contains(s.last()) {
            let k = choose|k: int| 0 <= k < p.len() && p[k] == s.last();
            assert(s[k] == s[s.len() - 1]);
        }
        assert(p.push(s.last()) =~= s);
    }
}

/// Removing repeats from two sequences and then from the two together
/// gives what removing them from the two together does.
pub proof fn lemma_unique_concat(a: Seq<SourceView>, b: Seq<SourceView>)
    ensures
        unique_views(unique_views(a) + unique_views(b)) == unique_views(a + b),
    decreases b.len(),
{
    lemma_unique_views(a);
    let ua = unique_views(a);
    if b.len() == 0 {
        assert(ua + unique_views(b) =~= ua);
        assert(a + b =~= a);
        lemma_unique_of_distinct(ua);
    } else {
        let b1 = b.drop_last();
        let v = b.last();
        lemma_unique_concat(a, b1);
        lemma_unique_views(b1);
        let ub1 = unique_views(b1);
        assert((a + b1).push(v) =~= a + b);
        assert((a + b).drop_last() =~= a + b1);
        assert((a + b).last() == v);
        lemma_concat_contains(a, b1, v);
        lemma_concat_contains(ua, ub1, v);
        if b1.contains(v) {
            assert(unique_views(b) == ub1);
        } else {
            assert(unique_views(b) == ub1.push(v));
            assert((ua + ub1).push(v) =~= ua + ub1.push(v));
            assert((ua + ub1.push(v)).drop_last() =~= ua + ub1);
            assert((ua + ub1.push(v)).last() == v);
        }
    }
}

/// `unique_sources` keeps exactly the sources that were given, each once:
/// a source is in the result just where it is among the given ones, and no
/// two entries of the result are the same.
pub proof fn law_unique_sources(s: Seq<SourceView>)
    ensures
        forall|x: SourceView| s.contains(x) <==> #[trigger] unique_views(s).contains(x),
        forall|a: int, b: int|
            0 <= a < b < unique_views(s).len() ==> unique_views(s)[a] != unique_views(s)[b],
{
    lemma_unique_views(s);
}

/// The paths that are not blank, each as a source, in their order.
pub open spec fn sources_of_paths(paths: Seq<StrictPathView>) -> Seq<SourceView>
    decreases paths.len(),
{
    if paths.len() == 0 {
        Seq::<SourceView>::empty()
    } else if is_blank_seq(paths.last().raw) {
        sources_of_paths(paths.drop_last())
    } else {
        sources_of_paths(paths.drop_last()).push(SourceView::Path(paths.last()))
    }
}

/// The lines that are not blank, each as a source for a path without
/// basis, in their order.
pub open spec fn sources_of_lines(lines: Seq<Seq<char>>) -> Seq<SourceView>
    decreases lines.len(),
{
    if lines.len() == 0 {
        Seq::<SourceView>::empty()
    } else if is_blank_seq(lines.last()) {
        sources_of_lines(lines.drop_last())
    } else {
        sources_of_lines(lines.drop_last()).push(
            SourceView::Path(StrictPathView { raw: lines.last(), basis: None }),
        )
    }
}

pub open spec fn path_views(paths: Seq<StrictPath>) -> Seq<StrictPathView> {
    paths.map_values(|p: StrictPath| p@)
}

pub open spec fn line_views(lines: Seq<String>) -> Seq<Seq<char>> {
    lines.map_values(|l: String| l@)
}

/// The sources named on the command line: the given paths that are not
/// blank; where no path is given, the non-blank lines of standard input
/// (`stdin` is `None` where standard input is a terminal, and gives none).
pub fn parse_sources(sources: Vec<StrictPath>, stdin: Option<Vec<String>>) -> (res: Vec<Source>)
    ensures
        sources@.len() > 0 ==> source_views(res@) == sources_of_paths(path_views(sources@)),
        sources@.len() == 0 ==> source_views(res@) == match stdin {
            Some(lines) => sources_of_lines(line_views(lines@)),
            None => Seq::<SourceView>::empty(),
        },
{
    if sources.len() > 0 {
        let mut out: Vec<Source> = Vec::new();
        let mut i: usize = 0;
        while i < sources.len()
            invariant
                i <= sources.len(),
                source_views(out@) == sources_of_paths(path_views(sources@).subrange(0, i as int)),
            decreases sources.len() - i,
        {
            let ghost all = path_views(sources@);
            assert(all.subrange(0, i + 1).drop_last() =~= all.subrange(0, i as int));
            assert(all.subrange(0, i + 1).last() == sources[i as int]@);
            if !sources[i].is_blank() {
                let ghost before = out@;
                out.push(Source::new_path(sources[i].copy()));
                assert(source_views(out@) =~= source_views(before).push(
                    SourceView::Path(sources[i as int]@),
                ));
            }
            i += 1;
        }
        assert(path_views(sources@).subrange(0, sources.len() as int) =~= path_views(sources@));
        out
    } else {
        match stdin {
            None => {
                let out: Vec<Source> = Vec::new();
                assert(source_views(out@) =~= Seq::<SourceView>::empty());
                out
            },
            Some(lines) => {
                let mut out: Vec<Source> = Vec::new();
                let mut i: usize = 0;
                while i < lines.len()
                    invariant
                        i <= lines.len(),
                        source_views(out@) == sources_of_lines(
                            line_views(lines@).subrange(0, i as int),
                        ),
                    decreases lines.len() - i,
                {
                    let ghost all = line_views(lines@);
                    assert(all.subrange(0, i + 1).drop_last() =~= all.subrange(0, i as int));
                    assert(all.subrange(0, i + 1).last() == lines[i as int]@);
                    let lc = chars_of(lines[i].as_str());
                    if !is_blank_chars(&lc) {
                        let ghost before = out@;
                        out.push(Source::new_path(StrictPath::new(lines[i].clone())));
                        assert(source_views(out@) =~= source_views(before).push(
                            SourceView::Path(StrictPathView { raw: lines[i as int]@, basis: None }),
                        ));
                    }
                    i += 1;
                }
                assert(line_views(lines@).subrange(0, lines.len() as int) =~= line_views(lines@));
                out
            },
        }
    }
}

} // verus!
