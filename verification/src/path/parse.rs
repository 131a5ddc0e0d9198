//! Breaking a raw path into a drive and its normal parts.
//!
//! The component grammar of Unix and Windows paths is the one of the
//! `typed_path` crate: its results are named here (`typed_path_components`,
//! `typed_windows_prefix`) and the library decides, from those components,
//! which drive and which parts a path has.
use vstd::prelude::*;
use typed_path::{
    Utf8TypedComponent as TC, Utf8TypedPath, Utf8UnixComponent as UC, Utf8WindowsComponent as WC,
    Utf8WindowsPrefix as WP,
};
use crate::text::{
    backslash_to_slash, chars_of, contains_sep, is_blank_chars, is_blank_seq, is_sep,
    lemma_segments_nonempty, lemma_segments_without_separator, non_blank, push_all, push_str, segments, split_segments, string_of,
    strs, trim, trim_chars, views,
};

verus! {

/// One component of a path, as `typed_path` splits it; a Windows prefix is
/// kept by its text.
#[derive(Clone, Debug, PartialEq, Eq)]
pub enum PathComponent {
    Prefix(String),
    RootDir,
    CurDir,
    ParentDir,
    Normal(String),
}

pub enum ComponentView {
    Prefix(Seq<char>),
    RootDir,
    CurDir,
    ParentDir,
    Normal(Seq<char>),
}

impl View for PathComponent {
    type V = ComponentView;

    open spec fn view(&self) -> ComponentView {
        match self {
            PathComponent::Prefix(s) => ComponentView::Prefix(s@),
            PathComponent::RootDir => ComponentView::RootDir,
            PathComponent::CurDir => ComponentView::CurDir,
            PathComponent::ParentDir => ComponentView::ParentDir,
            PathComponent::Normal(s) => ComponentView::Normal(s@),
        }
    }
}

/// The kind of a Windows path prefix, with its fields.
#[derive(Clone, Debug, PartialEq, Eq)]
pub enum WindowsPrefix {
    Verbatim(String),
    VerbatimUnc(String, String),
    VerbatimDisk(char),
    DeviceNs(String),
    Unc(String, String),
    Disk(char),
}

pub enum PrefixView {
    Verbatim(Seq<char>),
    VerbatimUnc(Seq<char>, Seq<char>),
    VerbatimDisk(char),
    DeviceNs(Seq<char>),
    Unc(Seq<char>, Seq<char>),
    Disk(char),
}

impl View for WindowsPrefix {
    type V = PrefixView;

    open spec fn view(&self) -> PrefixView {
        match self {
            WindowsPrefix::Verbatim(a) => PrefixView::Verbatim(a@),
            WindowsPrefix::VerbatimUnc(a, b) => PrefixView::VerbatimUnc(a@, b@),
            WindowsPrefix::VerbatimDisk(c) => PrefixView::VerbatimDisk(*c),
            WindowsPrefix::DeviceNs(a) => PrefixView::DeviceNs(a@),
            WindowsPrefix::Unc(a, b) => PrefixView::Unc(a@, b@),
            WindowsPrefix::Disk(c) => PrefixView::Disk(*c),
        }
    }
}

pub open spec fn prefix_option_view(p: Option<WindowsPrefix>) -> Option<PrefixView> {
    match p {
        Some(x) => Some(x@),
        None => None,
    }
}

pub open spec fn components_view(cs: Seq<PathComponent>) -> Seq<ComponentView> {
    cs.map_values(|c: PathComponent| c@)
}

/// The components that `typed_path::Utf8TypedPath::derive(raw).components()`
/// yields for `raw`.
pub uninterp spec fn typed_path_components(raw: Seq<char>) -> Seq<ComponentView>;

/// The prefix kind that `typed_path::Utf8WindowsPrefix::try_from(text)`
/// parses from `text`, or `None` where it fails.
pub uninterp spec fn typed_windows_prefix(text: Seq<char>) -> Option<PrefixView>;

/// Calls `Utf8TypedPath::derive(raw).components()` of `typed_path` and keeps
/// each component's kind, with the text of prefixes and normal parts.
/// Claimed: the result is the same for the same `raw` (a pure parse).
#[verifier::external_body]
pub(crate) fn path_components(raw: &str) -> (res: Vec<PathComponent>)
    ensures
        components_view(res@) == typed_path_components(raw@),
{
    Utf8TypedPath::derive(raw).components().map(|c| match c {
        TC::Unix(UC::RootDir) | TC::Windows(WC::RootDir) => PathComponent::RootDir,
        TC::Unix(UC::CurDir) | TC::Windows(WC::CurDir) => PathComponent::CurDir,
        TC::Unix(UC::ParentDir) | TC::Windows(WC::ParentDir) => PathComponent::ParentDir,
        TC::Unix(UC::Normal(p)) | TC::Windows(WC::Normal(p)) => PathComponent::Normal(p.to_string()),
        TC::Windows(WC::Prefix(p)) => PathComponent::Prefix(p.as_str().to_string()),
    }).collect()
}

/// Calls `Utf8WindowsPrefix::try_from(text)` of `typed_path` and keeps the
/// kind of prefix with its fields; `None` where the text is no prefix.
/// Claimed: the result is the same for the same `text` (a pure parse).
#[verifier::external_body]
fn windows_prefix(text: &str) -> (res: Option<WindowsPrefix>)
    ensures
        prefix_option_view(res) == typed_windows_prefix(text@),
{
    match WP::try_from(text) {
        Ok(WP::Verbatim(a)) => Some(WindowsPrefix::Verbatim(a.to_string())),
        Ok(WP::VerbatimUNC(a, b)) => Some(WindowsPrefix::VerbatimUnc(a.to_string(), b.to_string())),
        Ok(WP::VerbatimDisk(c)) => Some(WindowsPrefix::VerbatimDisk(c)),
        Ok(WP::DeviceNS(a)) => Some(WindowsPrefix::DeviceNs(a.to_string())),
        Ok(WP::UNC(a, b)) => Some(WindowsPrefix::Unc(a.to_string(), b.to_string())),
        Ok(WP::Disk(c)) => Some(WindowsPrefix::Disk(c)),
        Err(_) => None,
    }
}

/// The drive of a path: the Unix root, or a Windows prefix in its
/// normalized spelling.
#[derive(Clone, Debug, PartialEq, Eq, PartialOrd, Ord)]
pub enum Drive {
    Root,
    Windows(String),
}

pub enum DriveView {
    Root,
    Windows(Seq<char>),
}

impl View for Drive {
    type V = DriveView;

    open spec fn view(&self) -> DriveView {
        match self {
            Drive::Root => DriveView::Root,
            Drive::Windows(id) => DriveView::Windows(id@),
        }
    }
}

pub open spec fn drive_option_view(d: Option<Drive>) -> Option<DriveView> {
    match d {
        Some(x) => Some(x@),
        None => None,
    }
}

/// A path broken into its drive (if any) and its normal parts.
#[derive(Clone, Debug, Default, PartialEq, Eq, PartialOrd, Ord)]
pub struct Analysis {
    pub drive: Option<Drive>,
    pub parts: Vec<String>,
}

#[verifier::ext_equal]
pub struct AnalysisView {
    pub drive: Option<DriveView>,
    pub parts: Seq<Seq<char>>,
}

impl Analysis {
    /// An analysis with the given drive and parts.
    pub fn new(drive: Option<Drive>, parts: Vec<String>) -> (res: Self)
        ensures
            res.drive == drive,
            res.parts == parts,
    {
        Analysis { drive, parts }
    }
}

impl View for Analysis {
    type V = AnalysisView;

    open spec fn view(&self) -> AnalysisView {
        AnalysisView { drive: drive_option_view(self.drive), parts: strs(self.parts@) }
    }
}

pub open spec fn empty_analysis() -> AnalysisView {
    AnalysisView { drive: None, parts: Seq::<Seq<char>>::empty() }
}

/// `c` in upper case where it is an ASCII letter.
pub open spec fn ascii_upper(c: char) -> char {
    if 'a' <= c && c <= 'z' {
        ((c as u32) - 32) as char
    } else {
        c
    }
}

pub open spec fn verbatim_start() -> Seq<char> {
    seq!['\\', '\\', '?', '\\']
}

pub open spec fn verbatim_unc_start() -> Seq<char> {
    seq!['\\', '\\', '?', '\\', 'U', 'N', 'C', '\\']
}

pub open spec fn device_start() -> Seq<char> {
    seq!['\\', '\\', '.', '\\']
}

pub open spec fn unc_start() -> Seq<char> {
    seq!['\\', '\\']
}

/// A share name may hold forward slashes: everything after the first one
/// becomes normal parts, and the drive keeps the first piece.
pub open spec fn share_drive(start: Seq<char>, server: Option<Seq<char>>, share: Seq<char>) -> (
    Seq<char>,
    Seq<Seq<char>>,
) {
    let segs = segments(share, false);
    let id = match server {
        Some(s) => start + s + seq!['\\'] + segs[0],
        None => start + segs[0],
    };
    (id, segs.drop_first())
}

/// The drive spelling of a Windows prefix, and the parts it carries over.
pub open spec fn prefix_drive(p: PrefixView) -> (Seq<char>, Seq<Seq<char>>) {
    match p {
        PrefixView::Verbatim(id) => share_drive(verbatim_start(), None, id),
        PrefixView::VerbatimUnc(server, share) => share_drive(
            verbatim_unc_start(),
            Some(server),
            share,
        ),
        PrefixView::VerbatimDisk(c) => (seq![ascii_upper(c), ':'], Seq::<Seq<char>>::empty()),
        PrefixView::DeviceNs(id) => (device_start() + id, Seq::<Seq<char>>::empty()),
        PrefixView::Unc(server, share) => share_drive(unc_start(), Some(server), share),
        PrefixView::Disk(c) => (seq![ascii_upper(c), ':'], Seq::<Seq<char>>::empty()),
    }
}

/// The parts that a normal component adds: itself, or, where it holds
/// separators, its non-blank pieces.
pub open spec fn normal_pieces(part: Seq<char>) -> Seq<Seq<char>> {
    if exists|k: int| 0 <= k < part.len() && is_sep(#[trigger] part[k], true) {
        non_blank(segments(part, true))
    } else {
        seq![part]
    }
}

pub open spec fn tilde() -> Seq<char> {
    seq!['~']
}

pub open spec fn drop_last_part(parts: Seq<Seq<char>>) -> Seq<Seq<char>> {
    if parts.len() > 0 {
        parts.drop_last()
    } else {
        parts
    }
}

/// How one component changes the analysis so far. `first` holds for the
/// first component; `basis_an` and `home_an` are the analyses of the basis
/// and of the home directory, where there are some.
pub open spec fn step(
    acc: AnalysisView,
    c: ComponentView,
    first: bool,
    basis_an: Option<AnalysisView>,
    home_an: Option<AnalysisView>,
) -> AnalysisView {
    let start = if first && basis_an is Some {
        basis_an.unwrap()
    } else {
        acc
    };
    match c {
        ComponentView::Prefix(text) => match typed_windows_prefix(text) {
            Some(p) => AnalysisView {
                drive: Some(DriveView::Windows(prefix_drive(p).0)),
                parts: acc.parts + prefix_drive(p).1,
            },
            None => acc,
        },
        ComponentView::RootDir => if first {
            AnalysisView { drive: Some(DriveView::Root), parts: acc.parts }
        } else {
            acc
        },
        ComponentView::CurDir => start,
        ComponentView::ParentDir => AnalysisView {
            drive: start.drive,
            parts: drop_last_part(start.parts),
        },
        ComponentView::Normal(part) => if first && part == tilde() && home_an is Some {
            home_an.unwrap()
        } else {
            AnalysisView { drive: start.drive, parts: start.parts + normal_pieces(part) }
        },
    }
}

/// The analysis after the first `n` components.
pub open spec fn fold_components(
    comps: Seq<ComponentView>,
    n: nat,
    basis_an: Option<AnalysisView>,
    home_an: Option<AnalysisView>,
) -> AnalysisView
    decreases n,
{
    if n == 0 {
        empty_analysis()
    } else {
        step(
            fold_components(comps, (n - 1) as nat, basis_an, home_an),
            comps[n - 1],
            n - 1 == 0,
            basis_an,
            home_an,
        )
    }
}

/// The analysis of `raw` (trimmed) relative to `basis`, where `~` at the
/// start means `home`. A basis and the home directory are analyzed in turn
/// without a basis; `fuel` bounds that nesting.
pub open spec fn analyze_fuel(
    raw: Seq<char>,
    basis: Option<Seq<char>>,
    home: Option<Seq<char>>,
    fuel: nat,
) -> AnalysisView
    decreases fuel,
{
    if fuel == 0 {
        empty_analysis()
    } else {
        let comps = typed_path_components(trim(raw));
        let basis_an = match basis {
            Some(b) => Some(analyze_fuel(b, None, home, (fuel - 1) as nat)),
            None => None,
        };
        let home_an = match home {
            Some(h) => Some(analyze_fuel(h, None, home, (fuel - 1) as nat)),
            None => None,
        };
        fold_components(comps, comps.len(), basis_an, home_an)
    }
}

/// The analysis of a path: the path itself, then its basis, then the home
/// directory are the most that nest.
pub open spec fn analysis_of(
    raw: Seq<char>,
    basis: Option<Seq<char>>,
    home: Option<Seq<char>>,
) -> AnalysisView {
    analyze_fuel(raw, basis, home, 3)
}

/// A home directory is usable where its own analysis does not start from
/// `~` again (which would refer to itself without end).
pub open spec fn home_ok(home: Option<Seq<char>>) -> bool {
    match home {
        Some(h) => {
            let comps = typed_path_components(trim(h));
            !(comps.len() > 0 && comps[0] == ComponentView::Normal(tilde()))
        },
        None => true,
    }
}

pub open spec fn opt_str(o: Option<String>) -> Option<Seq<char>> {
    match o {
        Some(s) => Some(s@),
        None => None,
    }
}

/// A copy of an optional string.
pub fn copy_opt_string(o: &Option<String>) -> (res: Option<String>)
    ensures
        opt_str(res) == opt_str(*o),
{
    match o {
        Some(s) => Some(s.clone()),
        None => None,
    }
}

/// Strings holding the given character sequences.
pub fn to_strings(v: &Vec<Vec<char>>, from: usize) -> (res: Vec<String>)
    requires
        from <= v.len(),
    ensures
        strs(res@) == views(v@).subrange(from as int, v.len() as int),
{
    let mut out: Vec<String> = Vec::new();
    let mut i = from;
    while i < v.len()
        invariant
            from <= i <= v.len(),
            strs(out@) == views(v@).subrange(from as int, i as int),
        decreases v.len() - i,
    {
        let ghost before = out@;
        let s = string_of(&v[i]);
        out.push(s);
        assert(strs(out@) =~= strs(before).push(v[i as int]@));
        assert(views(v@).subrange(from as int, i + 1) =~= views(v@).subrange(
            from as int,
            i as int,
        ).push(v[i as int]@));
        i += 1;
    }
    out
}

/// Appends `items` to `parts`.
pub fn append_strings(parts: &mut Vec<String>, items: Vec<String>)
    ensures
        strs(final(parts)@) == strs(old(parts)@) + strs(items@),
{
    let mut i: usize = 0;
    while i < items.len()
        invariant
            i <= items.len(),
            strs(parts@) == strs(old(parts)@) + strs(items@).subrange(0, i as int),
        decreases items.len() - i,
    {
        let ghost before = parts@;
        parts.push(items[i].clone());
        assert(strs(parts@) =~= strs(before).push(items[i as int]@));
        assert(strs(items@).subrange(0, i + 1) =~= strs(items@).subrange(0, i as int).push(
            items[i as int]@,
        ));
        i += 1;
    }
    assert(strs(items@).subrange(0, items.len() as int) =~= strs(items@));
}

fn upper_ascii(c: char) -> (res: char)
    ensures
        res == ascii_upper(c),
{
    if 'a' <= c && c <= 'z' {
        let n: u8 = (c as u8) - 32;
        n as char
    } else {
        c
    }
}

fn share_drive_exec(start: &[char], server: Option<&String>, share: &String) -> (res: (
    String,
    Vec<String>,
))
    ensures
        res.0@ == share_drive(
            start@,
            match server {
                Some(s) => Some(s@),
                None => None,
            },
            share@,
        ).0,
        strs(res.1@) == share_drive(
            start@,
            match server {
                Some(s) => Some(s@),
                None => None,
            },
            share@,
        ).1,
{
    let share_chars = chars_of(share.as_str());
    let segs = split_segments(&share_chars, false);
    proof {
        lemma_segments_nonempty(share@, false);
    }
    let mut id: Vec<char> = Vec::new();
    push_all(&mut id, start);
    match server {
        Some(s) => {
            push_str(&mut id, s.as_str());
            id.push('\\');
        },
        None => {},
    }
    push_all(&mut id, &segs[0]);
    let extra = to_strings(&segs, 1);
    assert(views(segs@).subrange(1, segs.len() as int) =~= views(segs@).drop_first());
    (string_of(&id), extra)
}

fn prefix_drive_exec(p: &WindowsPrefix) -> (res: (String, Vec<String>))
    ensures
        res.0@ == prefix_drive(p@).0,
        strs(res.1@) == prefix_drive(p@).1,
{
    match p {
        WindowsPrefix::Verbatim(id) => {
            let start: Vec<char> = vec!['\\', '\\', '?', '\\'];
            assert(start@ =~= verbatim_start());
            share_drive_exec(&start, None, id)
        },
        WindowsPrefix::VerbatimUnc(server, share) => {
            let start: Vec<char> = vec!['\\', '\\', '?', '\\', 'U', 'N', 'C', '\\'];
            assert(start@ =~= verbatim_unc_start());
            share_drive_exec(&start, Some(server), share)
        },
        WindowsPrefix::VerbatimDisk(c) => {
            let d: Vec<char> = vec![upper_ascii(*c), ':'];
            let none: Vec<String> = Vec::new();
            assert(strs(none@) =~= Seq::<Seq<char>>::empty());
            (string_of(&d), none)
        },
        WindowsPrefix::DeviceNs(id) => {
            let mut d: Vec<char> = vec!['\\', '\\', '.', '\\'];
            assert(d@ =~= device_start());
            push_str(&mut d, id.as_str());
            let none: Vec<String> = Vec::new();
            assert(strs(none@) =~= Seq::<Seq<char>>::empty());
            (string_of(&d), none)
        },
        WindowsPrefix::Unc(server, share) => {
            let start: Vec<char> = vec!['\\', '\\'];
            assert(start@ =~= unc_start());
            share_drive_exec(&start, Some(server), share)
        },
        WindowsPrefix::Disk(c) => {
            let d: Vec<char> = vec![upper_ascii(*c), ':'];
            let none: Vec<String> = Vec::new();
            assert(strs(none@) =~= Seq::<Seq<char>>::empty());
            (string_of(&d), none)
        },
    }
}

/// The parts that a normal component adds to an analysis.
fn normal_pieces_exec(part: &String) -> (res: Vec<String>)
    ensures
        strs(res@) == normal_pieces(part@),
{
    let pc = chars_of(part.as_str());
    if contains_sep(&pc) {
        let segs = split_segments(&pc, true);
        let mut out: Vec<String> = Vec::new();
        let mut i: usize = 0;
        while i < segs.len()
            invariant
                i <= segs.len(),
                strs(out@) == non_blank(views(segs@).subrange(0, i as int)),
            decreases segs.len() - i,
        {
            let ghost before = out@;
            let ghost prev = views(segs@).subrange(0, i as int);
            let ghost next = views(segs@).subrange(0, i + 1);
            assert(next.drop_last() =~= prev);
            assert(next.last() == segs[i as int]@);
            if !is_blank_chars(&segs[i]) {
                out.push(string_of(&segs[i]));
                assert(strs(out@) =~= strs(before).push(segs[i as int]@));
            }
            i += 1;
        }
        assert(views(segs@).subrange(0, segs.len() as int) =~= views(segs@));
        out
    } else {
        let mut out: Vec<String> = Vec::new();
        out.push(part.clone());
        assert(strs(out@) =~= seq![part@]);
        out
    }
}

pub open spec fn analysis_option_view(a: Option<Analysis>) -> Option<AnalysisView> {
    match a {
        Some(x) => Some(x@),
        None => None,
    }
}

/// A copy of an analysis.
pub fn copy_analysis(a: &Analysis) -> (res: Analysis)
    ensures
        res@ == a@,
{
    let drive = match &a.drive {
        Some(Drive::Root) => Some(Drive::Root),
        Some(Drive::Windows(id)) => Some(Drive::Windows(id.clone())),
        None => None,
    };
    let mut parts: Vec<String> = Vec::new();
    append_strings(&mut parts, a.parts.clone());
    assert(strs(parts@) =~= strs(a.parts@)) by {
        assert(strs(Seq::<String>::empty()) =~= Seq::<Seq<char>>::empty());
    }
    Analysis { drive, parts }
}

fn copy_option_analysis(a: &Option<Analysis>) -> (res: Analysis)
    requires
        a is Some,
    ensures
        res@ == a->0@,
{
    match a {
        Some(x) => copy_analysis(x),
        None => Analysis { drive: None, parts: Vec::new() },
    }
}

/// The analysis after the given components, where `basis_an` and `home_an`
/// are the analyses of the basis and of the home directory, if any: the
/// first component starts from the basis (or, for `~`, from the home
/// directory), a root or a Windows prefix sets the drive, `..` drops the
/// last part and normal components add their pieces.
pub fn analyze_components(
    comps: &Vec<PathComponent>,
    basis_an: &Option<Analysis>,
    home_an: &Option<Analysis>,
) -> (res: Analysis)
    ensures
        res@ == fold_components(
            components_view(comps@),
            comps@.len() as nat,
            analysis_option_view(*basis_an),
            analysis_option_view(*home_an),
        ),
{
    let ghost bv = analysis_option_view(*basis_an);
    let ghost hv = analysis_option_view(*home_an);
    let ghost cv = components_view(comps@);
    let mut acc = Analysis { drive: None, parts: Vec::new() };
    assert(acc@ =~= empty_analysis());
    let mut i: usize = 0;
    while i < comps.len()
        invariant
            i <= comps.len(),
            cv == components_view(comps@),
            bv == analysis_option_view(*basis_an),
            hv == analysis_option_view(*home_an),
            acc@ == fold_components(cv, i as nat, bv, hv),
        decreases comps.len() - i,
    {
        let ghost prev = acc@;
        assert(cv[i as int] == comps[i as int]@);
        let first = i == 0;
        match &comps[i] {
            PathComponent::Prefix(text) => {
                match windows_prefix(text.as_str()) {
                    Some(p) => {
                        let (id, extra) = prefix_drive_exec(&p);
                        acc.drive = Some(Drive::Windows(id));
                        append_strings(&mut acc.parts, extra);
                        assert(acc@ =~= step(prev, cv[i as int], first, bv, hv));
                    },
                    None => {},
                }
            },
            PathComponent::RootDir => {
                if first {
                    acc.drive = Some(Drive::Root);
                    assert(acc@ =~= step(prev, cv[i as int], first, bv, hv));
                }
            },
            PathComponent::CurDir => {
                if first && basis_an.is_some() {
                    acc = copy_option_analysis(basis_an);
                }
            },
            PathComponent::ParentDir => {
                if first && basis_an.is_some() {
                    acc = copy_option_analysis(basis_an);
                }
                let ghost mid = acc@;
                acc.parts.pop();
                assert(acc@ =~= AnalysisView {
                    drive: mid.drive,
                    parts: drop_last_part(mid.parts),
                });
            },
            PathComponent::Normal(part) => {
                let pc = chars_of(part.as_str());
                let is_tilde = pc.len() == 1 && pc[0] == '~';
                proof {
                    if is_tilde {
                        assert(part@ =~= tilde());
                    }
                    if part@ == tilde() {
                        assert(pc@[0] == '~');
                    }
                }
                if first && is_tilde && home_an.is_some() {
                    acc = copy_option_analysis(home_an);
                } else {
                    if first && basis_an.is_some() {
                        acc = copy_option_analysis(basis_an);
                    }
                    let ghost mid = acc@;
                    let pieces = normal_pieces_exec(part);
                    append_strings(&mut acc.parts, pieces);
                    assert(acc@ =~= AnalysisView {
                        drive: mid.drive,
                        parts: mid.parts + normal_pieces(part@),
                    });
                }
            },
        }
        assert(acc@ == step(prev, cv[i as int], first, bv, hv));
        i += 1;
    }
    acc
}

/// The analysis of `raw` (trimmed) relative to `basis`, with `~` at the
/// start standing for `home`.
pub fn analyze_raw(raw: &str, basis: &Option<String>, home: &Option<String>, fuel: u8) -> (res:
    Analysis)
    ensures
        res@ == analyze_fuel(raw@, opt_str(*basis), opt_str(*home), fuel as nat),
    decreases fuel,
{
    if fuel == 0 {
        let acc = Analysis { drive: None, parts: Vec::new() };
        assert(acc@ =~= empty_analysis());
        return acc;
    }
    let basis_an = match basis {
        Some(b) => Some(analyze_raw(b.as_str(), &None, home, fuel - 1)),
        None => None,
    };
    let home_an = match home {
        Some(h) => Some(analyze_raw(h.as_str(), &None, home, fuel - 1)),
        None => None,
    };
    let raw_chars = chars_of(raw);
    let trimmed = trim_chars(&raw_chars);
    let trimmed_str = string_of(&trimmed);
    let comps = path_components(trimmed_str.as_str());
    analyze_components(&comps, &basis_an, &home_an)
}

/// A Windows disk drive is named by its letter in upper case followed by a
/// colon, whichever case the path spells the letter in; a disk prefix
/// carries no parts of its own.
pub proof fn law_disk_drive_upper_case(lower: char, upper: char)
    requires
        'a' <= lower <= 'z',
        upper as u32 == lower as u32 - 32,
    ensures
        prefix_drive(PrefixView::Disk(lower)).0 == seq![upper, ':'],
        prefix_drive(PrefixView::Disk(upper)).0 == seq![upper, ':'],
        prefix_drive(PrefixView::VerbatimDisk(lower)).0 == seq![upper, ':'],
        prefix_drive(PrefixView::VerbatimDisk(upper)).0 == seq![upper, ':'],
        prefix_drive(PrefixView::Disk(lower)).1.len() == 0,
        prefix_drive(PrefixView::VerbatimDisk(lower)).1.len() == 0,
{
    assert(((lower as u32 - 32) as u32) as char == upper);
}

/// Two paths whose first components are disk prefixes that differ only in
/// the case of the letter end up on the same drive, named by the upper-case
/// letter and a colon, whatever came before and whatever the basis and home
/// are.
pub proof fn law_drive_letter_case_is_ignored(
    t1: Seq<char>,
    t2: Seq<char>,
    lower: char,
    upper: char,
    a1: AnalysisView,
    a2: AnalysisView,
    first: bool,
    basis_an: Option<AnalysisView>,
    home_an: Option<AnalysisView>,
)
    requires
        'a' <= lower <= 'z',
        upper as u32 == lower as u32 - 32,
        typed_windows_prefix(t1) == Some(PrefixView::Disk(lower)),
        typed_windows_prefix(t2) == Some(PrefixView::Disk(upper)),
    ensures
        step(a1, ComponentView::Prefix(t1), first, basis_an, home_an).drive == Some(
            DriveView::Windows(seq![upper, ':']),
        ),
        step(a2, ComponentView::Prefix(t2), first, basis_an, home_an).drive == Some(
            DriveView::Windows(seq![upper, ':']),
        ),
        step(a1, ComponentView::Prefix(t1), first, basis_an, home_an).parts == a1.parts,
{
    law_disk_drive_upper_case(lower, upper);
    assert(a1.parts + prefix_drive(PrefixView::Disk(lower)).1 =~= a1.parts);
}

/// A UNC prefix `\\server\share` names the drive `\\server\share`; a
/// verbatim one `\\?\id` names `\\?\id`; a device one `\\.\id` names
/// `\\.\id`. Where the share or id holds no forward slash, no parts come
/// with it.
pub proof fn law_network_drives_keep_their_names(server: Seq<char>, share: Seq<char>)
    requires
        forall|k: int| 0 <= k < share.len() ==> share[k] != '/',
    ensures
        prefix_drive(PrefixView::Unc(server, share)).0 == seq!['\\', '\\'] + server + seq!['\\']
            + share,
        prefix_drive(PrefixView::Unc(server, share)).1.len() == 0,
        prefix_drive(PrefixView::Verbatim(share)).0 == seq!['\\', '\\', '?', '\\'] + share,
        prefix_drive(PrefixView::Verbatim(share)).1.len() == 0,
        prefix_drive(PrefixView::DeviceNs(share)).0 == seq!['\\', '\\', '.', '\\'] + share,
{
    assert forall|k: int| 0 <= k < share.len() implies !is_sep(#[trigger] share[k], false) by {}
    lemma_segments_without_separator(share, false);
    assert(unc_start() == seq!['\\', '\\']);
}

/// How single components change an analysis after the first: `.` changes
/// nothing, `..` drops the last part (keeping the drive), a root changes
/// nothing, and a plain name without separators is added as one part.
pub proof fn law_later_components(
    acc: AnalysisView,
    name: Seq<char>,
    basis_an: Option<AnalysisView>,
    home_an: Option<AnalysisView>,
)
    requires
        forall|k: int| 0 <= k < name.len() ==> !is_sep(#[trigger] name[k], true),
    ensures
        step(acc, ComponentView::CurDir, false, basis_an, home_an) == acc,
        step(acc, ComponentView::RootDir, false, basis_an, home_an) == acc,
        step(acc, ComponentView::ParentDir, false, basis_an, home_an).drive == acc.drive,
        acc.parts.len() > 0 ==> step(acc, ComponentView::ParentDir, false, basis_an, home_an).parts
            == acc.parts.subrange(0, acc.parts.len() - 1),
        acc.parts.len() == 0 ==> step(acc, ComponentView::ParentDir, false, basis_an, home_an).parts
            == acc.parts,
        step(acc, ComponentView::Normal(name), false, basis_an, home_an) == (AnalysisView {
            drive: acc.drive,
            parts: acc.parts.push(name),
        }),
{
    assert(acc.parts + seq![name] =~= acc.parts.push(name));
}

/// The first component starts from the basis, where there is one: a plain
/// name is added under the basis, and a root makes the path absolute on
/// the Unix root, whatever the basis.
pub proof fn law_first_component_starts_from_basis(
    basis: AnalysisView,
    name: Seq<char>,
    home_an: Option<AnalysisView>,
)
    requires
        forall|k: int| 0 <= k < name.len() ==> !is_sep(#[trigger] name[k], true),
        name != tilde() || home_an is None,
    ensures
        step(empty_analysis(), ComponentView::Normal(name), true, Some(basis), home_an) == (
        AnalysisView { drive: basis.drive, parts: basis.parts.push(name) }),
        step(empty_analysis(), ComponentView::RootDir, true, Some(basis), home_an).drive == Some(
            DriveView::Root,
        ),
        step(empty_analysis(), ComponentView::RootDir, true, Some(basis), home_an).parts.len() == 0,
{
    assert(basis.parts + seq![name] =~= basis.parts.push(name));
}

} // verus!
