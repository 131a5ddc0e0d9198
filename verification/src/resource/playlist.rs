//! Playlists: a layout of splits down to groups of sources, how each group
//! arranges its media, and the marker that the playlist file carries.
use vstd::prelude::*;
use crate::media::{
    lemma_unique_concat, source_views, unique_sources, unique_views, Source, SourceView,
};
use crate::prelude::{
    decimal, decimal_string, lemma_decimal_digits, parse_usize, parse_usize_of, unsigned_digits,
};
use crate::text::{chars_of, first_occurrence, occurs_at, replace_first, string_of};

verus! {

/// The direction in which a split divides its space.
#[derive(Clone, Copy, Debug, Default, PartialEq, Eq)]
pub enum SplitAxis {
    #[default]
    Horizontal,
    Vertical,
}

/// The direction in which a group lines up its media.
#[derive(Clone, Copy, Debug, Default, PartialEq, Eq, Structural)]
pub enum Orientation {
    #[default]
    Horizontal,
    Vertical,
}

/// A count that is never zero.
#[derive(Clone, Copy, Debug, PartialEq, Eq, Structural)]
pub struct NonZeroCount {
    value: usize,
}

impl View for NonZeroCount {
    type V = nat;

    closed spec fn view(&self) -> nat {
        self.value as nat
    }
}

impl NonZeroCount {
    #[verifier::type_invariant]
    closed spec fn positive(&self) -> bool {
        self.value > 0
    }

    /// The count `value`, where it is not zero.
    pub fn new(value: usize) -> (res: Option<Self>)
        ensures
            res is Some <==> value > 0,
            res matches Some(c) ==> c@ == value,
    {
        if value > 0 {
            Some(NonZeroCount { value })
        } else {
            None
        }
    }

    /// The count.
    pub fn get(&self) -> (res: usize)
        ensures
            res == self@,
            res > 0,
    {
        proof {
            use_type_invariant(self);
        }
        self.value
    }
}

/// The count whose value is `n`, where `n` is one.
pub open spec fn count_with(n: nat) -> NonZeroCount {
    choose|c: NonZeroCount| c@ == n
}

/// There is a count of every value from one to the largest `usize`.
pub proof fn lemma_count_exists(n: nat)
    requires
        0 < n <= usize::MAX,
    ensures
        exists|c: NonZeroCount| c@ == n,
        count_with(n)@ == n,
{
    let c = NonZeroCount { value: n as usize };
    assert(c@ == n);
}

/// A count is the count with its value.
pub proof fn lemma_count_with(c: NonZeroCount)
    ensures
        count_with(c@) == c,
{
    let d = count_with(c@);
    assert(d@ == c@);
}

/// What `str::parse::<NonZeroUsize>` gives: a `usize` as `str::parse`
/// reads it, where it is not zero.
pub open spec fn parse_count_of(s: Seq<char>) -> Option<nat> {
    match parse_usize_of(s) {
        Some(v) => if v > 0 {
            Some(v as nat)
        } else {
            None
        },
        None => None,
    }
}

impl NonZeroCount {
    /// Reads a count the way `str::parse::<NonZeroUsize>` does.
    pub fn parse(raw: &str) -> (res: Option<Self>)
        ensures
            match parse_count_of(raw@) {
                Some(n) => res matches Some(c) && c@ == n,
                None => res is None,
            },
    {
        let cs = chars_of(raw);
        match parse_usize(&cs) {
            Some(v) => NonZeroCount::new(v),
            None => None,
        }
    }
}

/// How many media a group lines up before it starts another line.
#[derive(Clone, Copy, Debug, Default, PartialEq, Eq, Structural)]
pub enum OrientationLimit {
    #[default]
    Automatic,
    Fixed(NonZeroCount),
}

impl OrientationLimit {
    pub const DEFAULT_FIXED: usize = 4;

    /// The count that a fixed limit starts with.
    pub fn default_fixed() -> (res: NonZeroCount)
        ensures
            res@ == 4,
    {
        NonZeroCount { value: Self::DEFAULT_FIXED }
    }

    /// The limit after its text was edited to `raw_limit`: a fixed limit
    /// takes the count written there, where it is one; otherwise the limit
    /// stays as it is.
    pub fn edited(&self, raw_limit: &str) -> (res: Self)
        ensures
            match (*self, parse_count_of(raw_limit@)) {
                (OrientationLimit::Fixed(_), Some(n)) => res matches OrientationLimit::Fixed(c)
                    && c@ == n,
                _ => res == *self,
            },
    {
        match self {
            OrientationLimit::Fixed(_) => match NonZeroCount::parse(raw_limit) {
                Some(c) => OrientationLimit::Fixed(c),
                None => *self,
            },
            OrientationLimit::Automatic => *self,
        }
    }

    /// The limit after choosing between a fixed and an automatic one: a
    /// fixed limit takes the count written in `current_raw` (the text last
    /// entered for it), or the default count where that is none.
    pub fn of_kind(fixed: bool, current_raw: &str) -> (res: Self)
        ensures
            !fixed ==> res is Automatic,
            fixed ==> (res matches OrientationLimit::Fixed(c) && c@ == match parse_count_of(
                current_raw@,
            ) {
                Some(n) => n,
                None => 4,
            }),
    {
        if fixed {
            match NonZeroCount::parse(current_raw) {
                Some(c) => OrientationLimit::Fixed(c),
                None => OrientationLimit::Fixed(Self::default_fixed()),
            }
        } else {
            OrientationLimit::Automatic
        }
    }

    /// The text that the limit is edited as: its count, or the default
    /// count for an automatic limit.
    pub fn text(&self) -> (res: String)
        ensures
            res@ == decimal(
                match *self {
                    OrientationLimit::Fixed(c) => c@,
                    OrientationLimit::Automatic => 4,
                },
            ),
    {
        match self {
            OrientationLimit::Fixed(c) => decimal_string(c.get() as u64),
            OrientationLimit::Automatic => decimal_string(Self::DEFAULT_FIXED as u64),
        }
    }

    /// Whether the limit is a fixed count.
    pub fn is_fixed(&self) -> (res: bool)
        ensures
            res == (self is Fixed),
    {
        match self {
            OrientationLimit::Automatic => false,
            OrientationLimit::Fixed(_) => true,
        }
    }
}

/// How media fill the space they are given.
#[derive(Clone, Copy, Debug, Default, PartialEq, Eq, Structural)]
pub enum ContentFit {
    /// Scale the media up or down to fill as much of the available space as possible
    /// while maintaining the media's aspect ratio.
    #[default]
    Scale,
    /// Scale the media down to fill as much of the available space as possible
    /// while maintaining the media's aspect ratio.
    /// Don't scale up if it's smaller than the available space.
    ScaleDown,
    /// Crop the media to fill all of the available space.
    /// Maintain the aspect ratio, cutting off parts of the media as needed to fit.
    Crop,
    /// Stretch the media to fill all of the available space.
    /// Preserve the whole media, disregarding the aspect ratio.
    Stretch,
}

/// A group of media drawn from some sources.
#[derive(Clone, Debug, PartialEq, Eq)]
pub struct Group {
    pub sources: Vec<Source>,
    pub max_media: usize,
    pub content_fit: ContentFit,
    pub orientation: Orientation,
    pub orientation_limit: OrientationLimit,
}

impl Default for Group {
    /// No sources, at most one medium, the default arrangement.
    fn default() -> (res: Self)
        ensures
            res.sources@.len() == 0,
            res.max_media == 1,
            res.content_fit == ContentFit::Scale,
            res.orientation == Orientation::Horizontal,
            res.orientation_limit == OrientationLimit::Automatic,
    {
        Group {
            sources: Vec::new(),
            max_media: 1,
            content_fit: ContentFit::Scale,
            orientation: Orientation::Horizontal,
            orientation_limit: OrientationLimit::Automatic,
        }
    }
}

/// The bit pattern of the single-precision ratio one half, which a split
/// starts with.
pub const HALF_RATIO_BITS: u32 = 0x3f00_0000;

/// Space divided between two layouts.
#[derive(Debug, PartialEq, Eq)]
pub struct Split {
    pub axis: SplitAxis,
    /// The share of the space that the first layout takes, as the bit
    /// pattern of a single-precision float.
    pub ratio_bits: u32,
    pub first: Box<Layout>,
    pub second: Box<Layout>,
}

/// How a playlist divides the window: splits down to groups of media.
#[derive(Debug, PartialEq, Eq)]
pub enum Layout {
    Split(Split),
    Group(Group),
}

impl Default for Split {
    /// An even horizontal split of two default layouts.
    fn default() -> (res: Self)
        ensures
            res.axis == SplitAxis::Horizontal,
            res.ratio_bits == HALF_RATIO_BITS,
            *res.first matches Layout::Group(g) && is_default_group(g),
            *res.second matches Layout::Group(g) && is_default_group(g),
    {
        Split {
            axis: SplitAxis::Horizontal,
            ratio_bits: HALF_RATIO_BITS,
            first: Box::new(Layout::default()),
            second: Box::new(Layout::default()),
        }
    }
}

impl Default for Layout {
    /// One default group.
    fn default() -> (res: Self)
        ensures
            res matches Layout::Group(g) && is_default_group(g),
    {
        Layout::Group(Group::default())
    }
}

/// Whether `g` is what `Group::default` gives.
pub open spec fn is_default_group(g: Group) -> bool {
    &&& g.sources@.len() == 0
    &&& g.max_media == 1
    &&& g.content_fit == ContentFit::Scale
    &&& g.orientation == Orientation::Horizontal
    &&& g.orientation_limit == OrientationLimit::Automatic
}

/// The sources of every group of a layout, first to last.
pub open spec fn layout_all_sources(l: Layout) -> Seq<SourceView>
    decreases l,
{
    match l {
        Layout::Split(s) => layout_all_sources(*s.first) + layout_all_sources(*s.second),
        Layout::Group(g) => source_views(g.sources@),
    }
}

/// What `Layout::sources` gives: a group's sources each once; a split's,
/// those of its first layout then of its second, each once.
pub open spec fn layout_sources(l: Layout) -> Seq<SourceView>
    decreases l,
{
    match l {
        Layout::Split(s) => unique_views(layout_sources(*s.first) + layout_sources(*s.second)),
        Layout::Group(g) => unique_views(source_views(g.sources@)),
    }
}

impl Layout {
    /// The sources of the layout, each once, in the order they first appear.
    pub fn sources(&self) -> (res: Vec<Source>)
        ensures
            source_views(res@) == layout_sources(*self),
        decreases self,
    {
        match self {
            Layout::Split(split) => {
                let mut all = split.first.sources();
                let mut second = split.second.sources();
                let ghost a = all@;
                let ghost b = second@;
                all.append(&mut second);
                assert(source_views(all@) =~= source_views(a) + source_views(b));
                unique_sources(&all)
            },
            Layout::Group(group) => unique_sources(&group.sources),
        }
    }
}

/// The sources of a layout are those of all its groups, first to last,
/// with repeats left out (the first of equal ones stays).
pub proof fn law_layout_sources(l: Layout)
    ensures
        layout_sources(l) == unique_views(layout_all_sources(l)),
    decreases l,
{
    match l {
        Layout::Split(s) => {
            law_layout_sources(*s.first);
            law_layout_sources(*s.second);
            lemma_unique_concat(layout_all_sources(*s.first), layout_all_sources(*s.second));
        },
        Layout::Group(_) => {},
    }
}

/// Settings for a playlist.
#[derive(Debug, PartialEq, Eq)]
pub struct Playlist {
    pub layout: Layout,
}

impl Default for Playlist {
    /// A playlist of one default group.
    fn default() -> (res: Self)
        ensures
            res.layout matches Layout::Group(g) && is_default_group(g),
    {
        Playlist { layout: Layout::default() }
    }
}

impl Playlist {
    /// The file extension of playlists.
    pub const EXTENSION: &'static str = "madamiru";

    /// A playlist with the given layout.
    pub fn new(layout: Layout) -> (res: Self)
        ensures
            res.layout == layout,
    {
        Playlist { layout }
    }

    /// The sources of the playlist's layout, each once, in the order they
    /// first appear.
    pub fn sources(&self) -> (res: Vec<Source>)
        ensures
            source_views(res@) == layout_sources(self.layout),
    {
        self.layout.sources()
    }
}

/// The text of a count, entered again, gives the same count: editing a
/// fixed limit to its own text keeps it.
pub proof fn law_count_text_round_trip(n: nat)
    requires
        0 < n <= usize::MAX,
    ensures
        parse_count_of(decimal(n)) == Some(n),
{
    lemma_decimal_digits(n);
    assert(decimal(n)[0] != '+');
    assert(unsigned_digits(decimal(n)) == decimal(n));
}

/// The comment that marks a file as a playlist.
pub const HINT: &'static str = "# madamiru-playlist";

/// The document marker of a serialized playlist.
pub open spec fn document_marker() -> Seq<char> {
    seq!['-', '-', '-']
}

/// The marker followed by the playlist comment on a line of its own.
pub open spec fn marked_hint() -> Seq<char> {
    document_marker() + seq!['\n'] + HINT@
}

/// A serialized playlist with the playlist comment put after its first
/// document marker (and left as it is where there is none).
pub fn with_hint(serialized: &str) -> (res: String)
    ensures
        (forall|j: int| !occurs_at(serialized@, document_marker(), j)) ==> res@ == serialized@,
        forall|i: int|
            first_occurrence(serialized@, document_marker(), i) ==> res@ == serialized@.subrange(
                0,
                i,
            ) + marked_hint() + serialized@.subrange(i + 3, serialized@.len() as int),
{
    let s = chars_of(serialized);
    let pat: Vec<char> = vec!['-', '-', '-'];
    assert(pat@ =~= document_marker());
    let mut rep: Vec<char> = vec!['-', '-', '-', '\n'];
    let hint = chars_of(HINT);
    let ghost base = rep@;
    crate::text::push_all(&mut rep, &hint);
    assert(rep@ =~= marked_hint());
    let out = replace_first(&s, &pat, &rep);
    string_of(&out)
}

} // verus!
