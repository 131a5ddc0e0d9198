//! Paths that keep their raw spelling and are interpreted on demand, with
//! `~`, relative bases, Unix and Windows spellings handled alike.
pub mod parse;

use vstd::prelude::*;
use crate::text::{
    backslash_to_slash, chars_of, contains_char, is_blank_chars, is_blank_seq, join, push_all,
    push_str, slashes_forward, slice_chars, string_of, strs, trim, trim_chars, trim_end_sep_chars,
    trim_end_seps,
};
pub use crate::path::parse::{
    analysis_of, analyze_fuel, analyze_raw, components_view, copy_opt_string, drive_option_view,
    drop_last_part, home_ok, opt_str, tilde, typed_path_components, Analysis, AnalysisView,
    ComponentView, Drive, DriveView, PathComponent, PrefixView, WindowsPrefix,
};
use crate::path::parse::path_components;

verus! {

/// The errors of turning a path into one that the host can access.
#[derive(Clone, Copy, Debug, PartialEq, Eq, PartialOrd, Ord)]
pub enum StrictPathError {
    Empty,
    Unmappable,
    Unsupported,
}

/// What resolving a path on disk gave: the resolved path, no path that
/// the host supports, or a path that could not be resolved.
#[derive(Clone, Debug, PartialEq, Eq, PartialOrd, Ord)]
pub enum Canonical {
    Valid(String),
    Unsupported,
    Inaccessible,
}

pub enum CanonicalView {
    Valid(Seq<char>),
    Unsupported,
    Inaccessible,
}

impl View for Canonical {
    type V = CanonicalView;

    open spec fn view(&self) -> CanonicalView {
        match self {
            Canonical::Valid(p) => CanonicalView::Valid(p@),
            Canonical::Unsupported => CanonicalView::Unsupported,
            Canonical::Inaccessible => CanonicalView::Inaccessible,
        }
    }
}

/// Calls `std::path::Path::canonicalize` (an alias of
/// `std::fs::canonicalize`) and renders the result lossily; `None` where it
/// fails. Nothing is claimed of the result: it depends on the disk.
#[verifier::external_body]
fn canonicalize_path(path: &str) -> Option<String> {
    std::path::Path::new(path).canonicalize().ok().map(|p| p.to_string_lossy().to_string())
}

/// Calls `std::path::Path::is_file`. Nothing is claimed: it depends on the
/// disk.
#[verifier::external_body]
fn path_is_file(path: &str) -> bool {
    std::path::Path::new(path).is_file()
}

/// Calls `std::path::Path::is_dir`. Nothing is claimed: it depends on the
/// disk.
#[verifier::external_body]
fn path_is_dir(path: &str) -> bool {
    std::path::Path::new(path).is_dir()
}

/// Calls `std::path::Path::is_symlink`. Nothing is claimed: it depends on
/// the disk.
#[verifier::external_body]
fn path_is_symlink(path: &str) -> bool {
    std::path::Path::new(path).is_symlink()
}

/// Calls `std::path::Path::file_name` and renders it lossily. Nothing is
/// claimed: the path grammar is the host platform's.
#[verifier::external_body]
fn path_file_name(path: &str) -> Option<String> {
    std::path::Path::new(path).file_name().map(|x| x.to_string_lossy().to_string())
}

/// Calls `std::path::Path::file_stem` and renders it lossily. Nothing is
/// claimed: the path grammar is the host platform's.
#[verifier::external_body]
fn path_file_stem(path: &str) -> Option<String> {
    std::path::Path::new(path).file_stem().map(|x| x.to_string_lossy().to_string())
}

/// Calls `std::path::Path::extension` and renders it lossily. Claimed: an
/// extension holds no dot, since the documentation of `Path::extension`
/// gives it as the part of the file name after the final dot. Which part of
/// the path is the file name is left unsaid: the path grammar is the host
/// platform's.
#[verifier::external_body]
fn path_extension(path: &str) -> (res: Option<String>)
    ensures
        res matches Some(e) ==> !e@.contains('.'),
{
    std::path::Path::new(path).extension().map(|x| x.to_string_lossy().to_string())
}

/// Calls `std::path::Path::parent` and renders the parent with
/// `Path::display`. Claimed: an empty path has no parent, as the
/// documentation of `Path::parent` says, and a parent is the path without
/// its final component, so a shorter leading part of it. Where the last
/// component ends is left unsaid, since the path grammar is the host
/// platform's.
#[verifier::external_body]
fn path_parent(path: &str) -> (res: Option<String>)
    ensures
        path@.len() == 0 ==> res is None,
        res matches Some(p) ==> p@.len() < path@.len() && p@ == path@.subrange(
            0,
            p@.len() as int,
        ),
{
    std::path::Path::new(path).parent().map(|p| p.display().to_string())
}

/// Directories that the platform defines.
pub enum CommonPath {
    Config,
    Home,
}

/// Calls `dirs::config_dir()` and renders the path lossily as a string.
/// Nothing is claimed of the result: it depends on the environment.
#[verifier::external_body]
fn config_dir() -> Option<String> {
    dirs::config_dir().map(|p| p.to_string_lossy().to_string())
}

/// Calls `dirs::home_dir()` and renders the path lossily as a string.
/// Nothing is claimed of the result: it depends on the environment.
#[verifier::external_body]
fn home_dir() -> Option<String> {
    dirs::home_dir().map(|p| p.to_string_lossy().to_string())
}

impl CommonPath {
    /// The directory, where the platform has one. It depends on the
    /// environment, so nothing more is stated of it.
    pub fn get(&self) -> Option<String> {
        match self {
            CommonPath::Config => config_dir(),
            CommonPath::Home => home_dir(),
        }
    }
}

/// What the host contributes to interpreting paths: whether it is Windows,
/// its working directory and its home directory.
pub struct Host {
    windows: bool,
    cwd: String,
    home: Option<String>,
}

pub struct HostView {
    pub windows: bool,
    pub cwd: Seq<char>,
    pub home: Option<Seq<char>>,
}

impl View for Host {
    type V = HostView;

    closed spec fn view(&self) -> HostView {
        HostView { windows: self.windows, cwd: self.cwd@, home: opt_str(self.home) }
    }
}

impl Host {
    #[verifier::type_invariant]
    closed spec fn usable_home(&self) -> bool {
        home_ok(opt_str(self.home))
    }

    /// A host with the given home directory; `None` where that home would
    /// start from `~` again, which no path could be interpreted against.
    pub fn with_home(windows: bool, cwd: String, home: Option<String>) -> (res: Option<Host>)
        ensures
            res is Some <==> home_ok(opt_str(home)),
            res matches Some(h) ==> h@ == (HostView { windows, cwd: cwd@, home: opt_str(home) }),
    {
        let ok = match &home {
            Some(h) => {
                let hc = chars_of(h.as_str());
                let t = trim_chars(&hc);
                let ts = string_of(&t);
                let comps = path_components(ts.as_str());
                let ghost cv = components_view(comps@);
                if comps.len() > 0 {
                    assert(cv[0] == comps[0]@);
                    match &comps[0] {
                        PathComponent::Normal(p) => {
                            let pc = chars_of(p.as_str());
                            let is_tilde = pc.len() == 1 && pc[0] == '~';
                            proof {
                                if is_tilde {
                                    assert(p@ =~= tilde());
                                }
                                if p@ == tilde() {
                                    assert(pc@[0] == '~');
                                }
                            }
                            !is_tilde
                        },
                        _ => true,
                    }
                } else {
                    true
                }
            },
            None => true,
        };
        if ok {
            Some(Host { windows, cwd, home })
        } else {
            None
        }
    }

    /// A host whose home directory is the platform's; `None` where that
    /// home would start from `~` again. Whatever home the platform gives,
    /// the host is made exactly where that home is usable, and holds it.
    pub fn new(windows: bool, cwd: String) -> (res: Option<Host>)
        ensures
            exists|home: Option<Seq<char>>|
                #![trigger home_ok(home)]
                (res is Some <==> home_ok(home)) && (res matches Some(h) ==> h@ == (HostView {
                    windows,
                    cwd: cwd@,
                    home,
                })),
    {
        let home = CommonPath::Home.get();
        let ghost given = opt_str(home);
        let res = Host::with_home(windows, cwd, home);
        assert((res is Some <==> home_ok(given)) && (res matches Some(h) ==> h@ == (HostView {
            windows,
            cwd: cwd@,
            home: given,
        })));
        res
    }

    pub fn is_windows(&self) -> (res: bool)
        ensures
            res == self@.windows,
    {
        self.windows
    }

    pub fn cwd(&self) -> (res: &str)
        ensures
            res@ == self@.cwd,
    {
        self.cwd.as_str()
    }
}

/// A path as the user wrote it, with the directory that it is relative to.
#[derive(Clone, Debug, Default, PartialEq, Eq, PartialOrd, Ord, Hash)]
pub struct StrictPath {
    raw: String,
    basis: Option<String>,
}

pub struct StrictPathView {
    pub raw: Seq<char>,
    pub basis: Option<Seq<char>>,
}

impl View for StrictPath {
    type V = StrictPathView;

    closed spec fn view(&self) -> StrictPathView {
        StrictPathView { raw: self.raw@, basis: opt_str(self.basis) }
    }
}

pub open spec fn slash() -> Seq<char> {
    seq!['/']
}

pub open spec fn backslash() -> Seq<char> {
    seq!['\\']
}

/// An analysis written back as a path with forward slashes.
pub open spec fn render_analysis(a: AnalysisView) -> Seq<char> {
    match a.drive {
        Some(DriveView::Root) => slash() + join(a.parts, slash()),
        Some(DriveView::Windows(id)) => id + slash() + join(a.parts, slash()),
        None => join(a.parts, slash()),
    }
}

/// The analysis of a path on a host.
pub open spec fn analysis_on(p: StrictPathView, host: HostView) -> AnalysisView {
    analysis_of(p.raw, p.basis, host.home)
}

/// How a path is shown: empty for an empty path, else its analysis.
pub open spec fn display_of(p: StrictPathView, host: HostView) -> Seq<char> {
    if p.raw.len() == 0 {
        Seq::<char>::empty()
    } else {
        render_analysis(analysis_on(p, host))
    }
}

/// What a path without a drive is relative to: its basis, else the
/// working directory.
pub open spec fn base_of(p: StrictPathView, host: HostView) -> Seq<char> {
    match p.basis {
        Some(b) => b,
        None => host.cwd,
    }
}

/// The path as a Unix host accesses it.
pub open spec fn access_nonwindows_of(p: StrictPathView, host: HostView) -> Result<
    Seq<char>,
    StrictPathError,
> {
    if p.raw.len() == 0 {
        Err(StrictPathError::Empty)
    } else {
        let a = analysis_on(p, host);
        match a.drive {
            Some(DriveView::Root) => Ok(slash() + join(a.parts, slash())),
            Some(DriveView::Windows(_)) => Err(StrictPathError::Unsupported),
            None => Ok(base_of(p, host) + slash() + join(a.parts, slash())),
        }
    }
}

pub open spec fn has_colon_part(parts: Seq<Seq<char>>) -> bool {
    exists|k: int| 0 <= k < parts.len() && (#[trigger] parts[k]).contains(':')
}

/// The path as a Windows host accesses it.
pub open spec fn access_windows_of(p: StrictPathView, host: HostView) -> Result<
    Seq<char>,
    StrictPathError,
> {
    if p.raw.len() == 0 {
        Err(StrictPathError::Empty)
    } else {
        let a = analysis_on(p, host);
        if has_colon_part(a.parts) {
            Err(StrictPathError::Unsupported)
        } else {
            match a.drive {
                Some(DriveView::Root) => Err(StrictPathError::Unsupported),
                Some(DriveView::Windows(id)) => Ok(id + backslash() + join(a.parts, backslash())),
                None => Ok(base_of(p, host) + backslash() + join(a.parts, backslash())),
            }
        }
    }
}

/// The path as this host accesses it.
pub open spec fn access_of(p: StrictPathView, host: HostView) -> Result<
    Seq<char>,
    StrictPathError,
> {
    if host.windows {
        access_windows_of(p, host)
    } else {
        access_nonwindows_of(p, host)
    }
}

pub open spec fn plain(raw: Seq<char>) -> StrictPathView {
    StrictPathView { raw, basis: None }
}

/// The interpretation of a path, given what resolving it on disk gave.
pub open spec fn interpret_of(p: StrictPathView, host: HostView, c: CanonicalView) -> Result<
    Seq<char>,
    StrictPathError,
> {
    match c {
        CanonicalView::Valid(resolved) => match access_of(plain(resolved), host) {
            Ok(x) => Ok(x),
            Err(_) => Ok(display_of(p, host)),
        },
        CanonicalView::Unsupported => Err(StrictPathError::Unsupported),
        CanonicalView::Inaccessible => access_of(p, host),
    }
}

/// Whether `c` is an outcome that resolving the path on disk can have: no
/// supported path where the host cannot access it, else a resolved path or
/// a failure.
pub open spec fn canonical_fits(p: StrictPathView, host: HostView, c: CanonicalView) -> bool {
    match access_of(p, host) {
        Err(_) => c is Unsupported,
        Ok(_) => c is Valid || c is Inaccessible,
    }
}

/// What interpreting a path can give, whatever resolving it on disk gave.
pub open spec fn interpretable_as(
    p: StrictPathView,
    host: HostView,
    r: Result<Seq<char>, StrictPathError>,
) -> bool {
    exists|c: CanonicalView| canonical_fits(p, host, c) && r == interpret_of(p, host, c)
}

pub open spec fn result_view(r: Result<String, StrictPathError>) -> Result<
    Seq<char>,
    StrictPathError,
> {
    match r {
        Ok(s) => Ok(s@),
        Err(e) => Err(e),
    }
}

pub open spec fn path_result_view(r: Result<StrictPath, StrictPathError>) -> Result<
    StrictPathView,
    StrictPathError,
> {
    match r {
        Ok(s) => Ok(s@),
        Err(e) => Err(e),
    }
}

/// The path one level up, as `popped` spells it.
pub open spec fn popped_of(p: StrictPathView, host: HostView) -> StrictPathView {
    let a = analysis_on(p, host);
    let parts = drop_last_part(a.parts);
    let raw = match a.drive {
        Some(DriveView::Root) => slash() + join(parts, slash()),
        Some(DriveView::Windows(id)) => id + slash() + join(parts, slash()),
        None => match p.basis {
            Some(b) => b + slash() + join(parts, slash()),
            None => join(parts, slash()),
        },
    };
    plain(raw)
}

/// Whether `a`'s parts start with all of `b`'s.
pub open spec fn parts_start_with(a: Seq<Seq<char>>, b: Seq<Seq<char>>) -> bool {
    b.len() <= a.len() && a.subrange(0, b.len() as int) == b
}

/// The result of `replace`: where `find` (as analyzed) is a leading part of
/// the path, that part is exchanged for `new`; otherwise the path is kept.
pub open spec fn replace_of(
    p: StrictPathView,
    find: StrictPathView,
    new: StrictPathView,
    host: HostView,
) -> StrictPathView {
    if is_blank_seq(find.raw) || is_blank_seq(new.raw) {
        p
    } else {
        let us = analysis_on(p, host);
        let f = analysis_on(find, host);
        if us.drive == f.drive && parts_start_with(us.parts, f.parts) {
            let n = analysis_on(new, host);
            plain(
                render_analysis(
                    AnalysisView {
                        drive: n.drive,
                        parts: n.parts + us.parts.subrange(f.parts.len() as int, us.parts.len() as int),
                    },
                ),
            )
        } else {
            p
        }
    }
}

/// Whether analysis `us` lies strictly inside analysis `them`.
pub open spec fn strictly_inside(us: AnalysisView, them: AnalysisView) -> bool {
    us.drive == them.drive && us.parts.len() < them.parts.len() && parts_start_with(
        them.parts,
        us.parts,
    )
}

/// The index and length of the nearest candidate among the first `n`
/// whose analysis `us` lies strictly inside, counting only candidates with
/// at least one part; the first of equally near ones wins.
pub open spec fn nearest_index(us: AnalysisView, cands: Seq<AnalysisView>, n: nat) -> (
    Option<int>,
    nat,
)
    decreases n,
{
    if n == 0 {
        (None, 0)
    } else {
        let (best, len) = nearest_index(us, cands, (n - 1) as nat);
        let t = cands[n - 1];
        if strictly_inside(t, us) && t.parts.len() > len {
            (Some(n - 1), t.parts.len())
        } else {
            (best, len)
        }
    }
}

pub open spec fn analyses_on(paths: Seq<StrictPath>, host: HostView) -> Seq<AnalysisView> {
    paths.map_values(|q: StrictPath| analysis_on(q@, host))
}

/// What `joined` gives: the raw spelling with `/other` appended and every
/// backslash turned forward.
pub open spec fn joined_of(p: StrictPathView, other: Seq<char>) -> StrictPathView {
    StrictPathView { raw: backslash_to_slash(p.raw + slash() + other), basis: p.basis }
}

/// What `replace_raw_prefix` gives: where the raw spelling starts with
/// `find`, that start becomes `new`; otherwise the path is kept.
pub open spec fn replace_raw_prefix_of(
    p: StrictPathView,
    find: Seq<char>,
    new: Seq<char>,
) -> StrictPathView {
    if find.len() <= p.raw.len() && p.raw.subrange(0, find.len() as int) == find {
        StrictPathView {
            raw: new + p.raw.subrange(find.len() as int, p.raw.len() as int),
            basis: p.basis,
        }
    } else {
        p
    }
}

/// Whether the first component of the raw spelling is a root or a prefix.
pub open spec fn absolute_of(raw: Seq<char>) -> bool {
    let comps = typed_path_components(raw);
    comps.len() > 0 && (comps[0] is RootDir || comps[0] is Prefix)
}

/// The parts joined by `sep`.
fn join_parts(parts: &Vec<String>, sep: &[char]) -> (res: Vec<char>)
    ensures
        res@ == join(strs(parts@), sep@),
{
    let mut out: Vec<char> = Vec::new();
    let mut i: usize = 0;
    while i < parts.len()
        invariant
            i <= parts.len(),
            out@ == join(strs(parts@).subrange(0, i as int), sep@),
        decreases parts.len() - i,
    {
        let ghost prev = strs(parts@).subrange(0, i as int);
        let ghost next = strs(parts@).subrange(0, i + 1);
        assert(next.drop_last() =~= prev);
        if i > 0 {
            push_all(&mut out, sep);
        }
        push_str(&mut out, parts[i].as_str());
        assert(next.last() == parts[i as int]@);
        i += 1;
    }
    assert(strs(parts@).subrange(0, parts.len() as int) =~= strs(parts@));
    out
}

/// An analysis written back as a path with forward slashes.
pub fn render_analysis_chars(a: &Analysis) -> (res: Vec<char>)
    ensures
        res@ == render_analysis(a@),
{
    let sep: Vec<char> = vec!['/'];
    assert(sep@ =~= slash());
    let joined = join_parts(&a.parts, &sep);
    match &a.drive {
        Some(Drive::Root) => {
            let mut out: Vec<char> = vec!['/'];
            push_all(&mut out, &joined);
            assert(out@ =~= slash() + join(strs(a.parts@), slash()));
            out
        },
        Some(Drive::Windows(id)) => {
            let mut out = chars_of(id.as_str());
            out.push('/');
            push_all(&mut out, &joined);
            assert(out@ =~= id@ + slash() + join(strs(a.parts@), slash()));
            out
        },
        None => joined,
    }
}

fn same_drive(a: &Option<Drive>, b: &Option<Drive>) -> (res: bool)
    ensures
        res == (drive_option_view(*a) == drive_option_view(*b)),
{
    match (a, b) {
        (None, None) => true,
        (Some(Drive::Root), Some(Drive::Root)) => true,
        (Some(Drive::Windows(x)), Some(Drive::Windows(y))) => {
            let e = *x == *y;
            e
        },
        _ => false,
    }
}

/// Whether `b`'s parts are the leading parts of `a`.
fn starts_with_parts(a: &Vec<String>, b: &Vec<String>) -> (res: bool)
    ensures
        res == parts_start_with(strs(a@), strs(b@)),
{
    if b.len() > a.len() {
        return false;
    }
    let mut i: usize = 0;
    while i < b.len()
        invariant
            i <= b.len() <= a.len(),
            forall|k: int| 0 <= k < i ==> a@[k]@ == b@[k]@,
        decreases b.len() - i,
    {
        if a[i] != b[i] {
            proof {
                let x = strs(a@).subrange(0, b.len() as int);
                assert(x[i as int] != strs(b@)[i as int]);
            }
            return false;
        }
        i += 1;
    }
    assert(strs(a@).subrange(0, b.len() as int) =~= strs(b@));
    true
}

fn parts_have_colon(parts: &Vec<String>) -> (res: bool)
    ensures
        res == has_colon_part(strs(parts@)),
{
    let mut i: usize = 0;
    while i < parts.len()
        invariant
            i <= parts.len(),
            forall|k: int| 0 <= k < i ==> !(#[trigger] strs(parts@)[k]).contains(':'),
        decreases parts.len() - i,
    {
        let pc = chars_of(parts[i].as_str());
        if contains_char(&pc, ':') {
            assert(strs(parts@)[i as int].contains(':'));
            return true;
        }
        i += 1;
    }
    false
}

/// The outcome of resolving a path, given how the host accesses it and
/// what the disk answered for the accessed path: `Unsupported` where the
/// host cannot access it, else the resolved path or `Inaccessible`.
pub fn canonical_given(
    accessed: &Result<String, StrictPathError>,
    resolved: Option<String>,
) -> (res: Canonical)
    ensures
        res@ == match accessed {
            Err(_) => CanonicalView::Unsupported,
            Ok(_) => match resolved {
                Some(r) => CanonicalView::Valid(r@),
                None => CanonicalView::Inaccessible,
            },
        },
{
    match accessed {
        Err(_) => Canonical::Unsupported,
        Ok(_) => match resolved {
            Some(r) => Canonical::Valid(r),
            None => Canonical::Inaccessible,
        },
    }
}

impl StrictPath {
    /// A path with no basis.
    pub fn new(raw: String) -> (res: Self)
        ensures
            res@ == plain(raw@),
    {
        StrictPath { raw, basis: None }
    }

    /// A path relative to `basis`.
    pub fn relative(raw: String, basis: Option<String>) -> (res: Self)
        ensures
            res@ == (StrictPathView { raw: raw@, basis: opt_str(basis) }),
    {
        StrictPath { raw, basis }
    }

    /// A copy of the path.
    pub fn copy(&self) -> (res: Self)
        ensures
            res@ == self@,
    {
        StrictPath { raw: self.raw.clone(), basis: copy_opt_string(&self.basis) }
    }

    /// Replaces the raw spelling; the basis stays.
    pub fn reset(&mut self, raw: String)
        ensures
            final(self)@ == (StrictPathView { raw: raw@, basis: old(self)@.basis }),
    {
        self.raw = raw;
    }

    /// The raw spelling.
    pub fn raw(&self) -> (res: String)
        ensures
            res@ == self@.raw,
    {
        self.raw.clone()
    }

    /// The raw spelling, borrowed.
    pub fn raw_ref(&self) -> (res: &str)
        ensures
            res@ == self@.raw,
    {
        self.raw.as_str()
    }

    /// The basis that a relative spelling is taken against.
    pub fn basis(&self) -> (res: Option<String>)
        ensures
            opt_str(res) == self@.basis,
    {
        copy_opt_string(&self.basis)
    }

    /// The drive and normal parts of the path.
    pub fn analyze(&self, host: &Host) -> (res: Analysis)
        ensures
            res@ == analysis_on(self@, host@),
    {
        analyze_raw(self.raw.as_str(), &self.basis, &host.home, 3)
    }

    /// The path spelled from its analysis, with forward slashes.
    pub fn display(&self, host: &Host) -> (res: String)
        ensures
            res@ == display_of(self@, host@),
    {
        if self.raw.as_str().is_empty() {
            return String::new();
        }
        let a = self.analyze(host);
        let cs = render_analysis_chars(&a);
        string_of(&cs)
    }

    /// The path as a Unix host accesses it: an absolute Unix path, or the
    /// relative parts under the basis (else the working directory).
    pub fn access_nonwindows(&self, host: &Host) -> (res: Result<String, StrictPathError>)
        ensures
            result_view(res) == access_nonwindows_of(self@, host@),
    {
        if self.raw.as_str().is_empty() {
            return Err(StrictPathError::Empty);
        }
        let a = self.analyze(host);
        let sep: Vec<char> = vec!['/'];
        assert(sep@ =~= slash());
        let joined = join_parts(&a.parts, &sep);
        match &a.drive {
            Some(Drive::Root) => {
                let mut out: Vec<char> = vec!['/'];
                push_all(&mut out, &joined);
                assert(out@ =~= slash() + join(strs(a.parts@), slash()));
                Ok(string_of(&out))
            },
            Some(Drive::Windows(_)) => Err(StrictPathError::Unsupported),
            None => {
                let mut out: Vec<char> = match &self.basis {
                    Some(b) => chars_of(b.as_str()),
                    None => chars_of(host.cwd.as_str()),
                };
                let ghost base = out@;
                out.push('/');
                push_all(&mut out, &joined);
                assert(out@ =~= base + slash() + join(strs(a.parts@), slash()));
                Ok(string_of(&out))
            },
        }
    }

    /// The path as a Windows host accesses it, with backslashes; a Unix
    /// root, or a part holding a colon, is unsupported there.
    pub fn access_windows(&self, host: &Host) -> (res: Result<String, StrictPathError>)
        ensures
            result_view(res) == access_windows_of(self@, host@),
    {
        if self.raw.as_str().is_empty() {
            return Err(StrictPathError::Empty);
        }
        let a = self.analyze(host);
        if parts_have_colon(&a.parts) {
            return Err(StrictPathError::Unsupported);
        }
        let sep: Vec<char> = vec!['\\'];
        assert(sep@ =~= backslash());
        let joined = join_parts(&a.parts, &sep);
        match &a.drive {
            Some(Drive::Root) => Err(StrictPathError::Unsupported),
            Some(Drive::Windows(id)) => {
                let mut out = chars_of(id.as_str());
                out.push('\\');
                push_all(&mut out, &joined);
                assert(out@ =~= id@ + backslash() + join(strs(a.parts@), backslash()));
                Ok(string_of(&out))
            },
            None => {
                let mut out: Vec<char> = match &self.basis {
                    Some(b) => chars_of(b.as_str()),
                    None => chars_of(host.cwd.as_str()),
                };
                let ghost base = out@;
                out.push('\\');
                push_all(&mut out, &joined);
                assert(out@ =~= base + backslash() + join(strs(a.parts@), backslash()));
                Ok(string_of(&out))
            },
        }
    }

    /// The path as this host accesses it.
    pub fn access(&self, host: &Host) -> (res: Result<String, StrictPathError>)
        ensures
            result_view(res) == access_of(self@, host@),
    {
        if host.windows {
            self.access_windows(host)
        } else {
            self.access_nonwindows(host)
        }
    }

    /// The displayed path, trimmed, without trailing separators and with
    /// forward slashes only: a form that glob patterns accept.
    pub fn globbable(&self, host: &Host) -> (res: String)
        ensures
            res@ == backslash_to_slash(trim_end_seps(trim(display_of(self@, host@)))),
    {
        let d = self.display(host);
        let dc = chars_of(d.as_str());
        let t = trim_chars(&dc);
        let e = trim_end_sep_chars(&t);
        let f = slashes_forward(&e);
        string_of(&f)
    }

    /// The path to use on disk, given what resolving it gave: the resolved
    /// path where there is one (or the displayed path should the host not
    /// take that), else the accessed path.
    pub fn interpret_with(&self, host: &Host, canonical: &Canonical) -> (res: Result<
        String,
        StrictPathError,
    >)
        ensures
            result_view(res) == interpret_of(self@, host@, canonical@),
    {
        match canonical {
            Canonical::Valid(resolved) => {
                let r = StrictPath::new(resolved.clone());
                match r.access(host) {
                    Ok(x) => Ok(x),
                    Err(_) => Ok(self.display(host)),
                }
            },
            Canonical::Unsupported => Err(StrictPathError::Unsupported),
            Canonical::Inaccessible => self.access(host),
        }
    }

    /// The interpreted path, keeping the basis.
    pub fn interpreted_with(&self, host: &Host, canonical: &Canonical) -> (res: Result<
        Self,
        StrictPathError,
    >)
        ensures
            path_result_view(res) == match interpret_of(self@, host@, canonical@) {
                Ok(raw) => Ok(StrictPathView { raw, basis: self@.basis }),
                Err(e) => Err(e),
            },
    {
        let raw = self.interpret_with(host, canonical)?;
        Ok(StrictPath { raw, basis: copy_opt_string(&self.basis) })
    }

    /// How the path is shown (no resolution on disk, so that links are
    /// shown as they are).
    pub fn render(&self, host: &Host) -> (res: String)
        ensures
            res@ == display_of(self@, host@),
    {
        self.display(host)
    }

    /// The rendered path, keeping the basis.
    pub fn rendered(&self, host: &Host) -> (res: Self)
        ensures
            res@ == (StrictPathView { raw: display_of(self@, host@), basis: self@.basis }),
    {
        StrictPath { raw: self.render(host), basis: copy_opt_string(&self.basis) }
    }

    /// The accessed path, or the raw spelling where the host cannot access
    /// it.
    pub fn resolve(&self, host: &Host) -> (res: String)
        ensures
            res@ == match access_of(self@, host@) {
                Ok(x) => x,
                Err(_) => self@.raw,
            },
    {
        match self.access(host) {
            Ok(x) => x,
            Err(_) => self.raw(),
        }
    }

    /// The accessed path.
    pub fn try_resolve(&self, host: &Host) -> (res: Result<String, StrictPathError>)
        ensures
            result_view(res) == access_of(self@, host@),
    {
        self.access(host)
    }

    /// The interpreted path, or the rendered one where interpreting fails.
    pub fn normalized_with(&self, host: &Host, canonical: &Canonical) -> (res: Self)
        ensures
            res@ == match interpret_of(self@, host@, canonical@) {
                Ok(raw) => StrictPathView { raw, basis: self@.basis },
                Err(_) => StrictPathView { raw: display_of(self@, host@), basis: self@.basis },
            },
    {
        match self.interpreted_with(host, canonical) {
            Ok(p) => p,
            Err(_) => self.rendered(host),
        }
    }

    /// Whether two paths interpret to the same path, given what resolving
    /// each gave.
    pub fn equivalent_with(
        &self,
        other: &Self,
        host: &Host,
        canonical: &Canonical,
        other_canonical: &Canonical,
    ) -> (res: bool)
        ensures
            res == (interpret_of(self@, host@, canonical@) == interpret_of(
                other@,
                host@,
                other_canonical@,
            )),
    {
        let a = self.interpret_with(host, canonical);
        let b = other.interpret_with(host, other_canonical);
        match (a, b) {
            (Ok(x), Ok(y)) => x == y,
            (Err(x), Err(y)) => match (x, y) {
                (StrictPathError::Empty, StrictPathError::Empty) => true,
                (StrictPathError::Unmappable, StrictPathError::Unmappable) => true,
                (StrictPathError::Unsupported, StrictPathError::Unsupported) => true,
                _ => false,
            },
            _ => false,
        }
    }

    /// The path with `/other` appended to its raw spelling and every
    /// backslash turned forward.
    pub fn joined(&self, other: &str) -> (res: Self)
        ensures
            res@ == joined_of(self@, other@),
    {
        let mut cs = chars_of(self.raw.as_str());
        cs.push('/');
        push_str(&mut cs, other);
        assert(cs@ =~= self@.raw + slash() + other@);
        let f = slashes_forward(&cs);
        StrictPath { raw: string_of(&f), basis: copy_opt_string(&self.basis) }
    }

    /// The path one level up (a root stays a root), with no basis.
    pub fn popped(&self, host: &Host) -> (res: Self)
        ensures
            res@ == popped_of(self@, host@),
    {
        let mut a = self.analyze(host);
        let ghost before = a@;
        a.parts.pop();
        assert(strs(a.parts@) =~= drop_last_part(before.parts));
        let sep: Vec<char> = vec!['/'];
        assert(sep@ =~= slash());
        let joined = join_parts(&a.parts, &sep);
        let raw = match &a.drive {
            Some(Drive::Root) => {
                let mut out: Vec<char> = vec!['/'];
                push_all(&mut out, &joined);
                assert(out@ =~= slash() + join(strs(a.parts@), slash()));
                out
            },
            Some(Drive::Windows(id)) => {
                let mut out = chars_of(id.as_str());
                out.push('/');
                push_all(&mut out, &joined);
                assert(out@ =~= id@ + slash() + join(strs(a.parts@), slash()));
                out
            },
            None => match &self.basis {
                Some(b) => {
                    let mut out = chars_of(b.as_str());
                    out.push('/');
                    push_all(&mut out, &joined);
                    assert(out@ =~= b@ + slash() + join(strs(a.parts@), slash()));
                    out
                },
                None => joined,
            },
        };
        StrictPath::new(string_of(&raw))
    }

    /// The path one level up, where that differs from the path itself.
    pub fn parent(&self, host: &Host) -> (res: Option<Self>)
        ensures
            res matches Some(q) ==> q@ == popped_of(self@, host@) && popped_of(self@, host@)
                != self@,
            res is None ==> popped_of(self@, host@) == self@,
    {
        let popped = self.popped(host);
        if popped.same_as(self) {
            None
        } else {
            Some(popped)
        }
    }

    /// Whether two paths have the same raw spelling and basis.
    pub fn same_as(&self, other: &Self) -> (res: bool)
        ensures
            res == (self@ == other@),
    {
        if self.raw != other.raw {
            return false;
        }
        match (&self.basis, &other.basis) {
            (None, None) => true,
            (Some(a), Some(b)) => {
                let e = *a == *b;
                e
            },
            _ => false,
        }
    }

    /// Where the analyzed `find` is a leading part of this path, that part is
    /// exchanged for `new`; otherwise (or where `find` or `new` is blank)
    /// the path is kept.
    pub fn replace(&self, find: &Self, new: &Self, host: &Host) -> (res: Self)
        ensures
            res@ == replace_of(self@, find@, new@, host@),
    {
        if find.is_blank() || new.is_blank() {
            return self.copy();
        }
        let us = self.analyze(host);
        let f = find.analyze(host);
        if !same_drive(&us.drive, &f.drive) {
            return self.copy();
        }
        if !starts_with_parts(&us.parts, &f.parts) {
            return self.copy();
        }
        let mut n = new.analyze(host);
        let ghost nv = n@;
        let mut i = f.parts.len();
        while i < us.parts.len()
            invariant
                f.parts.len() <= i <= us.parts.len(),
                n@.drive == nv.drive,
                strs(n.parts@) == nv.parts + strs(us.parts@).subrange(
                    f.parts.len() as int,
                    i as int,
                ),
            decreases us.parts.len() - i,
        {
            let ghost before = n.parts@;
            n.parts.push(us.parts[i].clone());
            assert(strs(n.parts@) =~= strs(before).push(us.parts[i as int]@));
            assert(strs(us.parts@).subrange(f.parts.len() as int, i + 1) =~= strs(
                us.parts@,
            ).subrange(f.parts.len() as int, i as int).push(us.parts[i as int]@));
            i += 1;
        }
        assert(n@ =~= AnalysisView {
            drive: nv.drive,
            parts: nv.parts + strs(us.parts@).subrange(
                f.parts.len() as int,
                us.parts.len() as int,
            ),
        });
        StrictPath::from_analysis(&n)
    }

    /// The path spelled from an analysis, with no basis.
    pub fn from_analysis(a: &Analysis) -> (res: Self)
        ensures
            res@ == plain(render_analysis(a@)),
    {
        let cs = render_analysis_chars(a);
        StrictPath::new(string_of(&cs))
    }

    /// Where the raw spelling starts with `find`, that start becomes `new`
    /// (the basis stays); otherwise the path is kept.
    pub fn replace_raw_prefix(&self, find: &str, new: &str) -> (res: Self)
        ensures
            res@ == replace_raw_prefix_of(self@, find@, new@),
    {
        let rc = chars_of(self.raw.as_str());
        let fc = chars_of(find);
        assert(rc@ == self@.raw);
        assert(fc@ == find@);
        if fc.len() > rc.len() {
            return self.copy();
        }
        let mut i: usize = 0;
        while i < fc.len()
            invariant
                i <= fc.len() <= rc.len(),
                rc@ == self@.raw,
                fc@ == find@,
                forall|k: int| 0 <= k < i ==> rc@[k] == fc@[k],
            decreases fc.len() - i,
        {
            if rc[i] != fc[i] {
                assert(rc@.subrange(0, fc.len() as int)[i as int] != fc@[i as int]);
                return self.copy();
            }
            i += 1;
        }
        assert(rc@.subrange(0, fc.len() as int) =~= fc@);
        let mut out = chars_of(new);
        let rest = slice_chars(&rc, fc.len(), rc.len());
        push_all(&mut out, &rest);
        StrictPath { raw: string_of(&out), basis: copy_opt_string(&self.basis) }
    }

    /// Whether the first component of the raw spelling is a root or a
    /// Windows prefix.
    pub fn is_absolute(&self) -> (res: bool)
        ensures
            res == absolute_of(self@.raw),
    {
        let comps = path_components(self.raw.as_str());
        let ghost cv = components_view(comps@);
        if comps.len() == 0 {
            return false;
        }
        assert(cv[0] == comps[0]@);
        match &comps[0] {
            PathComponent::RootDir => true,
            PathComponent::Prefix(_) => true,
            _ => false,
        }
    }

    /// Whether this path lies strictly inside `other`: same drive, fewer
    /// parts, and all of them leading `other`'s.
    pub fn is_prefix_of(&self, other: &Self, host: &Host) -> (res: bool)
        ensures
            res == strictly_inside(analysis_on(self@, host@), analysis_on(other@, host@)),
    {
        let us = self.analyze(host);
        let them = other.analyze(host);
        if !same_drive(&us.drive, &them.drive) {
            return false;
        }
        if us.parts.len() >= them.parts.len() {
            return false;
        }
        starts_with_parts(&them.parts, &us.parts)
    }

    /// The nearest of `others` that this path lies strictly inside (only
    /// those with at least one part count; the first of equally near ones).
    pub fn nearest_prefix(&self, others: Vec<StrictPath>, host: &Host) -> (res: Option<
        StrictPath,
    >)
        ensures
            match nearest_index(
                analysis_on(self@, host@),
                analyses_on(others@, host@),
                others@.len(),
            ).0 {
                Some(j) => res matches Some(r) && r@ == others@[j]@,
                None => res is None,
            },
    {
        let us = self.analyze(host);
        let ghost usv = us@;
        let ghost cands = analyses_on(others@, host@);
        let mut best: Option<usize> = None;
        let mut best_len: usize = 0;
        let mut i: usize = 0;
        while i < others.len()
            invariant
                i <= others.len(),
                usv == analysis_on(self@, host@),
                us@ == usv,
                cands == analyses_on(others@, host@),
                ({
                    let (b, l) = nearest_index(usv, cands, i as nat);
                    l == best_len && match b {
                        Some(j) => best == Some(j as usize) && 0 <= j < i,
                        None => best is None,
                    }
                }),
            decreases others.len() - i,
        {
            let them = others[i].analyze(host);
            assert(cands[i as int] == them@);
            let ok = same_drive(&us.drive, &them.drive) && them.parts.len() < us.parts.len()
                && starts_with_parts(&us.parts, &them.parts) && them.parts.len() > best_len;
            proof {
                assert(strs(them.parts@).len() == them.parts.len());
                assert(strs(us.parts@).len() == us.parts.len());
                assert(nearest_index(usv, cands, (i + 1) as nat) == {
                    let (b, l) = nearest_index(usv, cands, i as nat);
                    let t = cands[i as int];
                    if strictly_inside(t, usv) && t.parts.len() > l {
                        (Some(i as int), t.parts.len())
                    } else {
                        (b, l)
                    }
                });
            }
            if ok {
                best = Some(i);
                best_len = them.parts.len();
            }
            i += 1;
        }
        match best {
            Some(j) => {
                let mut others = others;
                let r = others.remove(j);
                Some(r)
            },
            None => None,
        }
    }

    /// Resolves the accessed path on disk: `Unsupported` where the host
    /// cannot access the path, else the resolved path or `Inaccessible`.
    /// The path handed to the disk is exactly the accessed one, and what
    /// the disk answers is turned into the outcome by `canonical_given`.
    pub fn canonical(&self, host: &Host) -> (res: Canonical)
        ensures
            canonical_fits(self@, host@, res@),
    {
        let accessed = self.access(host);
        let resolved = match &accessed {
            Ok(path) => canonicalize_path(path.as_str()),
            Err(_) => None,
        };
        canonical_given(&accessed, resolved)
    }

    /// The path that the disk is asked about for this path, given what
    /// resolving it gave: the interpreted path, or none where the path
    /// cannot be interpreted.
    pub fn queried_path(&self, host: &Host, canonical: &Canonical) -> (res: Option<String>)
        ensures
            opt_str(res) == match interpret_of(self@, host@, canonical@) {
                Ok(x) => Some(x),
                Err(_) => None::<Seq<char>>,
            },
    {
        match self.interpret_with(host, canonical) {
            Ok(p) => Some(p),
            Err(_) => None,
        }
    }

    /// The path to use on disk, after resolving it there.
    pub fn interpret(&self, host: &Host) -> (res: Result<String, StrictPathError>)
        ensures
            interpretable_as(self@, host@, result_view(res)),
    {
        let c = self.canonical(host);
        let res = self.interpret_with(host, &c);
        assert(canonical_fits(self@, host@, c@) && result_view(res) == interpret_of(
            self@,
            host@,
            c@,
        ));
        res
    }

    /// The interpreted path, keeping the basis, after resolving it on disk.
    pub fn interpreted(&self, host: &Host) -> (res: Result<Self, StrictPathError>)
        ensures
            exists|c: CanonicalView|
                canonical_fits(self@, host@, c) && path_result_view(res) == match interpret_of(
                    self@,
                    host@,
                    c,
                ) {
                    Ok(raw) => Ok(StrictPathView { raw, basis: self@.basis }),
                    Err(e) => Err(e),
                },
    {
        let c = self.canonical(host);
        let res = self.interpreted_with(host, &c);
        assert(canonical_fits(self@, host@, c@));
        res
    }

    /// The interpreted path, or the rendered one where interpreting fails,
    /// after resolving it on disk.
    pub fn normalized(&self, host: &Host) -> (res: Self)
        ensures
            exists|c: CanonicalView|
                canonical_fits(self@, host@, c) && res@ == match interpret_of(self@, host@, c) {
                    Ok(raw) => StrictPathView { raw, basis: self@.basis },
                    Err(_) => StrictPathView { raw: display_of(self@, host@), basis: self@.basis },
                },
    {
        let c = self.canonical(host);
        let res = self.normalized_with(host, &c);
        assert(canonical_fits(self@, host@, c@));
        res
    }

    /// Whether two paths interpret to the same path after resolving both on
    /// disk. Two paths with the same spelling and basis are resolved once,
    /// so that a path is always equivalent to itself.
    pub fn equivalent(&self, other: &Self, host: &Host) -> (res: bool)
        ensures
            exists|c: CanonicalView, d: CanonicalView|
                canonical_fits(self@, host@, c) && canonical_fits(other@, host@, d) && res == (
                interpret_of(self@, host@, c) == interpret_of(other@, host@, d)),
            self@ == other@ ==> res,
    {
        let c = self.canonical(host);
        if self.same_as(other) {
            let res = self.equivalent_with(other, host, &c, &c);
            assert(canonical_fits(self@, host@, c@) && canonical_fits(other@, host@, c@));
            return res;
        }
        let d = other.canonical(host);
        let res = self.equivalent_with(other, host, &c, &d);
        assert(canonical_fits(self@, host@, c@) && canonical_fits(other@, host@, d@));
        res
    }

    /// Whether the interpreted path is a file on disk; never where the path
    /// cannot be interpreted.
    pub fn is_file(&self, host: &Host) -> (res: bool)
        ensures
            exists|c: CanonicalView|
                canonical_fits(self@, host@, c) && (res ==> interpret_of(self@, host@, c) is Ok),
    {
        let c = self.canonical(host);
        let res = match self.queried_path(host, &c) {
            Some(p) => path_is_file(p.as_str()),
            None => false,
        };
        assert(canonical_fits(self@, host@, c@));
        res
    }

    /// Whether the interpreted path is a directory on disk; never where the
    /// path cannot be interpreted.
    pub fn is_dir(&self, host: &Host) -> (res: bool)
        ensures
            exists|c: CanonicalView|
                canonical_fits(self@, host@, c) && (res ==> interpret_of(self@, host@, c) is Ok),
    {
        let c = self.canonical(host);
        let res = match self.queried_path(host, &c) {
            Some(p) => path_is_dir(p.as_str()),
            None => false,
        };
        assert(canonical_fits(self@, host@, c@));
        res
    }

    /// Whether the interpreted path is a symbolic link on disk; never where
    /// the path cannot be interpreted.
    pub fn is_symlink(&self, host: &Host) -> (res: bool)
        ensures
            exists|c: CanonicalView|
                canonical_fits(self@, host@, c) && (res ==> interpret_of(self@, host@, c) is Ok),
    {
        let c = self.canonical(host);
        let res = match self.queried_path(host, &c) {
            Some(p) => path_is_symlink(p.as_str()),
            None => false,
        };
        assert(canonical_fits(self@, host@, c@));
        res
    }

    /// Whether the path is a file or a directory on disk.
    pub fn exists_on_disk(&self, host: &Host) -> (res: bool)
        ensures
            res ==> exists|c: CanonicalView|
                canonical_fits(self@, host@, c) && interpret_of(self@, host@, c) is Ok,
    {
        self.is_file(host) || self.is_dir(host)
    }

    /// The path one level up where the path is a file on disk, else the path
    /// itself.
    pub fn parent_if_file(&self, host: &Host) -> (res: Result<Self, StrictPathError>)
        ensures
            res matches Ok(q) && (q@ == popped_of(self@, host@) || q@ == self@),
            res is Ok,
            (res matches Ok(q) && q@ != self@) ==> exists|c: CanonicalView|
                canonical_fits(self@, host@, c) && interpret_of(self@, host@, c) is Ok,
    {
        if self.is_file(host) {
            Ok(self.popped(host))
        } else {
            Ok(self.copy())
        }
    }

    /// The last component of the interpreted path, by the host's path
    /// grammar; none where the path cannot be interpreted.
    pub fn leaf(&self, host: &Host) -> (res: Option<String>)
        ensures
            exists|c: CanonicalView|
                canonical_fits(self@, host@, c) && (res is Some ==> interpret_of(self@, host@, c) is Ok),
    {
        let c = self.canonical(host);
        let res = match self.queried_path(host, &c) {
            Some(p) => path_file_name(p.as_str()),
            None => None,
        };
        assert(canonical_fits(self@, host@, c@));
        res
    }

    /// The file name of the interpreted path without its extension, by the
    /// host's path grammar; none where the path cannot be interpreted.
    pub fn file_stem(&self, host: &Host) -> (res: Option<String>)
        ensures
            exists|c: CanonicalView|
                canonical_fits(self@, host@, c) && (res is Some ==> interpret_of(self@, host@, c) is Ok),
    {
        let c = self.canonical(host);
        let res = match self.queried_path(host, &c) {
            Some(p) => path_file_stem(p.as_str()),
            None => None,
        };
        assert(canonical_fits(self@, host@, c@));
        res
    }

    /// The extension of the interpreted path, by the host's path grammar
    /// (it holds no dot); none where the path cannot be interpreted.
    pub fn file_extension(&self, host: &Host) -> (res: Option<String>)
        ensures
            exists|c: CanonicalView|
                canonical_fits(self@, host@, c) && (res is Some ==> interpret_of(self@, host@, c) is Ok),
            res matches Some(e) ==> !e@.contains('.'),
    {
        let c = self.canonical(host);
        let res = match self.queried_path(host, &c) {
            Some(p) => path_extension(p.as_str()),
            None => None,
        };
        assert(canonical_fits(self@, host@, c@));
        res
    }

    /// The parent of the raw spelling by the host's path grammar, as a path
    /// without basis; none for an empty spelling.
    pub fn parent_raw(&self) -> (res: Option<Self>)
        ensures
            res matches Some(q) ==> q@.basis is None && q@.raw.len() < self@.raw.len()
                && q@.raw == self@.raw.subrange(0, q@.raw.len() as int),
            self@.raw.len() == 0 ==> res is None,
    {
        match path_parent(self.raw.as_str()) {
            Some(p) => Some(StrictPath::new(p)),
            None => None,
        }
    }

    /// Whether the raw spelling is blank.
    pub fn is_blank(&self) -> (res: bool)
        ensures
            res == is_blank_seq(self@.raw),
    {
        let cs = chars_of(self.raw.as_str());
        is_blank_chars(&cs)
    }
}

/// No path lies strictly inside itself.
pub proof fn law_prefix_irreflexive(p: StrictPathView, host: HostView)
    ensures
        !strictly_inside(analysis_on(p, host), analysis_on(p, host)),
{
}

/// Lying strictly inside is transitive: inside a path that lies inside a
/// third, a path lies inside the third too.
pub proof fn law_prefix_transitive(a: AnalysisView, b: AnalysisView, c: AnalysisView)
    requires
        strictly_inside(a, b),
        strictly_inside(b, c),
    ensures
        strictly_inside(a, c),
{
    assert(c.parts.subrange(0, a.parts.len() as int) =~= a.parts) by {
        assert forall|k: int| 0 <= k < a.parts.len() implies c.parts.subrange(
            0,
            a.parts.len() as int,
        )[k] == a.parts[k] by {
            assert(c.parts.subrange(0, b.parts.len() as int)[k] == c.parts[k]);
            assert(b.parts.subrange(0, a.parts.len() as int)[k] == b.parts[k]);
        }
    }
}

/// Lying strictly inside is asymmetric: two paths never lie inside each
/// other.
pub proof fn law_prefix_asymmetric(a: AnalysisView, b: AnalysisView)
    requires
        strictly_inside(a, b),
    ensures
        !strictly_inside(b, a),
{
}

proof fn lemma_nearest_index(us: AnalysisView, cands: Seq<AnalysisView>, n: nat)
    requires
        n <= cands.len(),
    ensures
        ({
            let (b, l) = nearest_index(us, cands, n);
            &&& (b is None <==> l == 0)
            &&& forall|k: int|
                0 <= k < n && strictly_inside(#[trigger] cands[k], us) ==> cands[k].parts.len()
                    <= l
            &&& b matches Some(j) ==> {
                &&& 0 <= j < n
                &&& strictly_inside(cands[j], us)
                &&& cands[j].parts.len() == l
                &&& l > 0
                &&& forall|k: int|
                    0 <= k < j && strictly_inside(#[trigger] cands[k], us) ==> cands[k].parts.len()
                        < l
            }
        }),
    decreases n,
{
    if n > 0 {
        lemma_nearest_index(us, cands, (n - 1) as nat);
    }
}

/// `nearest_prefix` picks a path that this one lies strictly inside, with at
/// least one part, that no other such candidate outnumbers in parts and
/// that comes first among the candidates as near; it finds none only where
/// every candidate that this path lies inside has no parts.
pub proof fn law_nearest_prefix_is_nearest(us: AnalysisView, cands: Seq<AnalysisView>)
    ensures
        match nearest_index(us, cands, cands.len()).0 {
            Some(j) => {
                &&& 0 <= j < cands.len()
                &&& strictly_inside(cands[j], us)
                &&& cands[j].parts.len() > 0
                &&& forall|k: int|
                    0 <= k < cands.len() && strictly_inside(#[trigger] cands[k], us) ==> cands[k].parts.len()
                        <= cands[j].parts.len()
                &&& forall|k: int|
                    0 <= k < j && strictly_inside(#[trigger] cands[k], us) ==> cands[k].parts.len()
                        < cands[j].parts.len()
            },
            None => forall|k: int|
                0 <= k < cands.len() && strictly_inside(#[trigger] cands[k], us) ==> cands[k].parts.len()
                    == 0,
        },
{
    lemma_nearest_index(us, cands, cands.len());
}

/// Joining twice is joining once with both pieces: `p.joined(a).joined(b)`
/// equals `p.joined(a + "/" + b)`.
pub proof fn law_joined_twice(p: StrictPathView, a: Seq<char>, b: Seq<char>)
    ensures
        joined_of(joined_of(p, a), b) == joined_of(p, a + slash() + b),
{
    let x = backslash_to_slash(backslash_to_slash(p.raw + slash() + a) + slash() + b);
    let y = backslash_to_slash(p.raw + slash() + (a + slash() + b));
    assert(x =~= y);
}

/// A path with a drive is accessible on at most one kind of host: a Unix
/// root is unsupported on Windows, and a Windows drive on Unix.
pub proof fn law_drive_fits_one_host(p: StrictPathView, host: HostView)
    requires
        analysis_on(p, host).drive is Some,
    ensures
        !(access_windows_of(p, host) is Ok && access_nonwindows_of(p, host) is Ok),
{
}

proof fn lemma_trim_end_seps_last(s: Seq<char>)
    ensures
        trim_end_seps(s).len() > 0 ==> trim_end_seps(s).last() != '/' && trim_end_seps(s).last()
            != '\\',
    decreases s.len(),
{
    if s.len() > 0 && (s.last() == '/' || s.last() == '\\') {
        lemma_trim_end_seps_last(s.drop_last());
    }
}

/// The globbable form of a path holds no backslash and does not end with a
/// separator.
pub proof fn law_globbable_form(p: StrictPathView, host: HostView)
    ensures
        ({
            let g = backslash_to_slash(trim_end_seps(trim(display_of(p, host))));
            &&& !g.contains('\\')
            &&& g.len() > 0 ==> g.last() != '/'
        }),
{
    let t = trim_end_seps(trim(display_of(p, host)));
    lemma_trim_end_seps_last(trim(display_of(p, host)));
    let g = backslash_to_slash(t);
    if g.len() > 0 {
        assert(g.last() == (if t.last() == '\\' {
            '/'
        } else {
            t.last()
        }));
    }
}

/// A relative path with no basis is taken inside the working directory:
/// on Unix with `/` between the parts, on Windows with `\` (where no part
/// holds a colon).
pub proof fn law_relative_paths_resolve_to_cwd(p: StrictPathView, host: HostView)
    requires
        p.raw.len() > 0,
        p.basis is None,
        analysis_on(p, host).drive is None,
    ensures
        access_nonwindows_of(p, host) == Ok::<Seq<char>, StrictPathError>(
            host.cwd + slash() + join(analysis_on(p, host).parts, slash()),
        ),
        !has_colon_part(analysis_on(p, host).parts) ==> access_windows_of(p, host) == Ok::<
            Seq<char>,
            StrictPathError,
        >(host.cwd + backslash() + join(analysis_on(p, host).parts, backslash())),
{
}

/// A path that is just `~` stands for the home directory: it is analyzed
/// as the home directory itself is.
pub proof fn law_tilde_is_home(p: StrictPathView, host: HostView)
    requires
        typed_path_components(trim(p.raw)) == seq![ComponentView::Normal(tilde())],
        host.home is Some,
    ensures
        analysis_on(p, host) == analyze_fuel(host.home.unwrap(), None, host.home, 2),
{
    let comps = typed_path_components(trim(p.raw));
    assert(comps.len() == 1);
    assert(comps[0] == ComponentView::Normal(tilde()));
}

/// Replacing an empty raw prefix puts the new text in front of the raw
/// spelling.
pub proof fn law_replace_empty_raw_prefix(p: StrictPathView, new: Seq<char>)
    ensures
        replace_raw_prefix_of(p, Seq::<char>::empty(), new).raw == new + p.raw,
{
    assert(p.raw.subrange(0, 0) =~= Seq::<char>::empty());
    assert(p.raw.subrange(0, p.raw.len() as int) =~= p.raw);
}

/// How a path with a drive is accessed: a Unix root is accessed on Unix as
/// `/` and the parts joined by `/`, and is unsupported on Windows; a Windows
/// drive is accessed on Windows as the drive, `\\` and the parts joined by
/// `\\` (where no part holds a colon), and is unsupported on Unix. A path
/// is displayed with forward slashes after its drive either way.
pub proof fn law_access_by_drive(p: StrictPathView, host: HostView)
    requires
        p.raw.len() > 0,
    ensures
        analysis_on(p, host).drive == Some(DriveView::Root) ==> {
            &&& access_nonwindows_of(p, host) == Ok::<Seq<char>, StrictPathError>(
                seq!['/'] + join(analysis_on(p, host).parts, seq!['/']),
            )
            &&& access_windows_of(p, host) == Err::<Seq<char>, StrictPathError>(
                StrictPathError::Unsupported,
            )
            &&& display_of(p, host) == seq!['/'] + join(analysis_on(p, host).parts, seq!['/'])
        },
        analysis_on(p, host).drive matches Some(DriveView::Windows(id)) ==> {
            &&& access_nonwindows_of(p, host) == Err::<Seq<char>, StrictPathError>(
                StrictPathError::Unsupported,
            )
            &&& !has_colon_part(analysis_on(p, host).parts) ==> access_windows_of(p, host) == Ok::<
                Seq<char>,
                StrictPathError,
            >(id + seq!['\\'] + join(analysis_on(p, host).parts, seq!['\\']))
            &&& display_of(p, host) == id + seq!['/'] + join(analysis_on(p, host).parts, seq!['/'])
        },
        display_of(StrictPathView { raw: Seq::<char>::empty(), basis: p.basis }, host).len() == 0,
        access_of(StrictPathView { raw: Seq::<char>::empty(), basis: p.basis }, host) == Err::<
            Seq<char>,
            StrictPathError,
        >(StrictPathError::Empty),
{
}

} // verus!
