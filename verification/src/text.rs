//! Character-level helpers shared by the path and formatting logic.
//!
//! Text is handled as `Vec<char>` inside the library; its view is the
//! `Seq<char>` of a Rust string, so `chars_of` and `string_of` only change
//! the container.
use vstd::prelude::*;

verus! {

/// The Unicode `White_Space` property, which `char::is_whitespace` and
/// `str::trim` use.
pub open spec fn is_ws(c: char) -> bool {
    let n = c as u32;
    (0x9 <= n && n <= 0xd) || n == 0x20 || n == 0x85 || n == 0xa0 || n == 0x1680 || (0x2000
        <= n && n <= 0x200a) || n == 0x2028 || n == 0x2029 || n == 0x202f || n == 0x205f || n
        == 0x3000
}

/// Whether `c` is white space, as `char::is_whitespace` decides it.
pub fn is_whitespace(c: char) -> (res: bool)
    ensures
        res == is_ws(c),
{
    let n = c as u32;
    (0x9 <= n && n <= 0xd) || n == 0x20 || n == 0x85 || n == 0xa0 || n == 0x1680 || (0x2000
        <= n && n <= 0x200a) || n == 0x2028 || n == 0x2029 || n == 0x202f || n == 0x205f || n
        == 0x3000
}

/// `s` without its leading white space.
pub open spec fn trim_start(s: Seq<char>) -> Seq<char>
    decreases s.len(),
{
    if s.len() > 0 && is_ws(s[0]) {
        trim_start(s.drop_first())
    } else {
        s
    }
}

/// `s` without its trailing white space.
pub open spec fn trim_end(s: Seq<char>) -> Seq<char>
    decreases s.len(),
{
    if s.len() > 0 && is_ws(s.last()) {
        trim_end(s.drop_last())
    } else {
        s
    }
}

/// What `str::trim` leaves of `s`.
pub open spec fn trim(s: Seq<char>) -> Seq<char> {
    trim_end(trim_start(s))
}

/// Whether `s` holds nothing but white space.
pub open spec fn is_blank_seq(s: Seq<char>) -> bool {
    trim(s).len() == 0
}

/// `s` without its trailing path separators (`/` and `\`).
pub open spec fn trim_end_seps(s: Seq<char>) -> Seq<char>
    decreases s.len(),
{
    if s.len() > 0 && (s.last() == '/' || s.last() == '\\') {
        trim_end_seps(s.drop_last())
    } else {
        s
    }
}

/// `s` with every backslash turned into a forward slash.
pub open spec fn backslash_to_slash(s: Seq<char>) -> Seq<char> {
    s.map_values(|c: char| if c == '\\' { '/' } else { c })
}

/// Whether `c` separates segments: `/` always, `\` too when `both`.
pub open spec fn is_sep(c: char, both: bool) -> bool {
    c == '/' || (both && c == '\\')
}

/// The segments of `s` between separators, as `str::split` yields them:
/// always at least one, empty ones included.
pub open spec fn segments(s: Seq<char>, both: bool) -> Seq<Seq<char>>
    decreases s.len(),
{
    if s.len() == 0 {
        seq![Seq::<char>::empty()]
    } else {
        let r = segments(s.drop_last(), both);
        if is_sep(s.last(), both) {
            r.push(Seq::<char>::empty())
        } else {
            r.update(r.len() - 1, r.last().push(s.last()))
        }
    }
}

/// The parts joined with `sep` between each two, as `[String]::join` does.
pub open spec fn join(parts: Seq<Seq<char>>, sep: Seq<char>) -> Seq<char>
    decreases parts.len(),
{
    if parts.len() == 0 {
        Seq::<char>::empty()
    } else if parts.len() == 1 {
        parts[0]
    } else {
        join(parts.drop_last(), sep) + sep + parts.last()
    }
}

/// The character sequences held in `v`.
pub open spec fn views(v: Seq<Vec<char>>) -> Seq<Seq<char>> {
    v.map_values(|x: Vec<char>| x@)
}

/// The character sequences of the strings in `v`.
pub open spec fn strs(v: Seq<String>) -> Seq<Seq<char>> {
    v.map_values(|x: String| x@)
}

/// The parts that are not blank, in their order.
pub open spec fn non_blank(parts: Seq<Seq<char>>) -> Seq<Seq<char>>
    decreases parts.len(),
{
    if parts.len() == 0 {
        Seq::<Seq<char>>::empty()
    } else if is_blank_seq(parts.last()) {
        non_blank(parts.drop_last())
    } else {
        non_blank(parts.drop_last()).push(parts.last())
    }
}

pub proof fn lemma_segments_nonempty(s: Seq<char>, both: bool)
    ensures
        segments(s, both).len() >= 1,
    decreases s.len(),
{
    if s.len() > 0 {
        lemma_segments_nonempty(s.drop_last(), both);
    }
}

pub proof fn lemma_trim_start_skip(s: Seq<char>, i: int)
    requires
        0 <= i <= s.len(),
        forall|k: int| 0 <= k < i ==> is_ws(#[trigger] s[k]),
    ensures
        trim_start(s) == trim_start(s.subrange(i, s.len() as int)),
    decreases i,
{
    if i > 0 {
        assert(s.subrange(1, s.len() as int) =~= s.drop_first());
        lemma_trim_start_skip(s.drop_first(), i - 1);
        assert(s.drop_first().subrange(i - 1, s.drop_first().len() as int) =~= s.subrange(
            i,
            s.len() as int,
        ));
    } else {
        assert(s.subrange(0, s.len() as int) =~= s);
    }
}

pub proof fn lemma_trim_end_skip(s: Seq<char>, j: int)
    requires
        0 <= j <= s.len(),
        forall|k: int| j <= k < s.len() ==> is_ws(#[trigger] s[k]),
    ensures
        trim_end(s) == trim_end(s.subrange(0, j)),
    decreases s.len() - j,
{
    if j < s.len() {
        lemma_trim_end_skip(s.drop_last(), j);
        assert(s.drop_last().subrange(0, j) =~= s.subrange(0, j));
    } else {
        assert(s.subrange(0, j) =~= s);
    }
}

/// The characters of `s`, in order, as `str::chars` yields them.
pub fn chars_of(s: &str) -> (res: Vec<char>)
    ensures
        res@ == s@,
{
    broadcast use vstd::string::group_string_axioms;

    let mut out: Vec<char> = Vec::new();
    for c in it: s.chars()
        invariant
            it.seq() == s@,
            out@ == it.seq().subrange(0, it.index()),
    {
        out.push(c);
    }
    out
}

/// `String::push`, which its documentation describes as appending the
/// character to the end of the string. Claimed: the string's characters
/// afterwards are those before, then `ch`.
pub assume_specification[ String::push ](s: &mut String, ch: char)
    ensures
        final(s)@ == old(s)@.push(ch),
;

/// A string of the characters, in order.
pub fn string_of(chars: &[char]) -> (res: String)
    ensures
        res@ == chars@,
{
    let mut out = String::new();
    let mut i: usize = 0;
    while i < chars.len()
        invariant
            i <= chars.len(),
            out@ == chars@.subrange(0, i as int),
        decreases chars.len() - i,
    {
        out.push(chars[i]);
        assert(chars@.subrange(0, i + 1) =~= chars@.subrange(0, i as int).push(chars@[i as int]));
        i += 1;
    }
    assert(chars@.subrange(0, chars.len() as int) =~= chars@);
    out
}

/// A copy of `s`.
pub fn copy_chars(s: &[char]) -> (res: Vec<char>)
    ensures
        res@ == s@,
{
    let mut out: Vec<char> = Vec::new();
    let mut i: usize = 0;
    while i < s.len()
        invariant
            i <= s.len(),
            out@ == s@.subrange(0, i as int),
        decreases s.len() - i,
    {
        out.push(s[i]);
        i += 1;
    }
    out
}

/// Appends the characters of `s` to `out`.
pub fn push_all(out: &mut Vec<char>, s: &[char])
    ensures
        final(out)@ == old(out)@ + s@,
{
    let mut i: usize = 0;
    while i < s.len()
        invariant
            i <= s.len(),
            out@ == old(out)@ + s@.subrange(0, i as int),
        decreases s.len() - i,
    {
        out.push(s[i]);
        i += 1;
    }
    assert(s@.subrange(0, s.len() as int) =~= s@);
}

/// Appends the characters of `s` to `out`.
pub fn push_str(out: &mut Vec<char>, s: &str)
    ensures
        final(out)@ == old(out)@ + s@,
{
    let cs = chars_of(s);
    push_all(out, &cs);
}

/// The characters of `s[from..to]`.
pub fn slice_chars(s: &[char], from: usize, to: usize) -> (res: Vec<char>)
    requires
        from <= to <= s.len(),
    ensures
        res@ == s@.subrange(from as int, to as int),
{
    let mut out: Vec<char> = Vec::new();
    let mut i: usize = from;
    while i < to
        invariant
            from <= i <= to <= s.len(),
            out@ == s@.subrange(from as int, i as int),
        decreases to - i,
    {
        out.push(s[i]);
        i += 1;
    }
    out
}

/// What `str::trim` leaves of `s`.
pub fn trim_chars(s: &[char]) -> (res: Vec<char>)
    ensures
        res@ == trim(s@),
{
    let mut i: usize = 0;
    while i < s.len() && is_whitespace(s[i])
        invariant
            i <= s.len(),
            forall|k: int| 0 <= k < i ==> is_ws(#[trigger] s@[k]),
        decreases s.len() - i,
    {
        i += 1;
    }
    proof {
        lemma_trim_start_skip(s@, i as int);
        let rest = s@.subrange(i as int, s@.len() as int);
        if rest.len() > 0 {
            assert(rest[0] == s@[i as int]);
        }
        assert(trim_start(rest) == rest);
    }
    let mut j: usize = s.len();
    while j > i && is_whitespace(s[j - 1])
        invariant
            i <= j <= s.len(),
            forall|k: int| j <= k < s.len() ==> is_ws(#[trigger] s@[k]),
        decreases j,
    {
        j -= 1;
    }
    proof {
        let rest = s@.subrange(i as int, s@.len() as int);
        assert forall|k: int| j - i <= k < rest.len() implies is_ws(#[trigger] rest[k]) by {
            assert(rest[k] == s@[k + i]);
        }
        lemma_trim_end_skip(rest, j - i);
        assert(rest.subrange(0, j - i) =~= s@.subrange(i as int, j as int));
        let kept = s@.subrange(i as int, j as int);
        if kept.len() > 0 {
            assert(kept.last() == s@[j - 1]);
        }
        assert(trim_end(kept) == kept);
    }
    slice_chars(s, i, j)
}

/// Whether `s` holds nothing but white space.
pub fn is_blank_chars(s: &[char]) -> (res: bool)
    ensures
        res == is_blank_seq(s@),
{
    let t = trim_chars(s);
    t.len() == 0
}

/// Whether `s` holds the character `c`.
pub fn contains_char(s: &[char], c: char) -> (res: bool)
    ensures
        res == s@.contains(c),
{
    let mut i: usize = 0;
    while i < s.len()
        invariant
            i <= s.len(),
            forall|k: int| 0 <= k < i ==> s@[k] != c,
        decreases s.len() - i,
    {
        if s[i] == c {
            assert(s@[i as int] == c);
            return true;
        }
        i += 1;
    }
    false
}

/// Whether `s` holds a path separator (`/` or `\`).
pub fn contains_sep(s: &[char]) -> (res: bool)
    ensures
        res == (exists|k: int| 0 <= k < s@.len() && is_sep(#[trigger] s@[k], true)),
{
    let mut i: usize = 0;
    while i < s.len()
        invariant
            i <= s.len(),
            forall|k: int| 0 <= k < i ==> !is_sep(#[trigger] s@[k], true),
        decreases s.len() - i,
    {
        if s[i] == '/' || s[i] == '\\' {
            assert(is_sep(s@[i as int], true));
            return true;
        }
        i += 1;
    }
    false
}

/// The segments of `s` between separators, as `str::split` yields them.
pub fn split_segments(s: &[char], both: bool) -> (res: Vec<Vec<char>>)
    ensures
        views(res@) == segments(s@, both),
{
    let mut out: Vec<Vec<char>> = Vec::new();
    let mut cur: Vec<char> = Vec::new();
    let mut i: usize = 0;
    assert(s@.subrange(0, 0) =~= Seq::<char>::empty());
    while i < s.len()
        invariant
            i <= s.len(),
            views(out@).push(cur@) == segments(s@.subrange(0, i as int), both),
        decreases s.len() - i,
    {
        let ghost prev = s@.subrange(0, i as int);
        let ghost next = s@.subrange(0, i + 1);
        assert(next.drop_last() =~= prev);
        assert(next.last() == s@[i as int]);
        let ghost r = segments(prev, both);
        let c = s[i];
        if c == '/' || (both && c == '\\') {
            let ghost before = out@;
            let ghost cv = cur@;
            let done = cur;
            out.push(done);
            assert(views(out@) =~= views(before).push(cv));
            cur = Vec::new();
            assert(views(out@).push(cur@) =~= r.push(Seq::<char>::empty()));
        } else {
            let ghost before = views(out@);
            cur.push(c);
            assert(views(out@) == before);
            assert(before.push(cur@) =~= r.update(r.len() - 1, r.last().push(c)));
        }
        i += 1;
    }
    assert(s@.subrange(0, s.len() as int) =~= s@);
    let ghost before = out@;
    let ghost cv = cur@;
    out.push(cur);
    assert(views(out@) =~= views(before).push(cv));
    out
}

/// The parts joined with `sep` between each two.
pub fn join_chars(parts: &Vec<Vec<char>>, sep: &[char]) -> (res: Vec<char>)
    ensures
        res@ == join(views(parts@), sep@),
{
    let mut out: Vec<char> = Vec::new();
    let mut i: usize = 0;
    while i < parts.len()
        invariant
            i <= parts.len(),
            out@ == join(views(parts@).subrange(0, i as int), sep@),
        decreases parts.len() - i,
    {
        let ghost prev = views(parts@).subrange(0, i as int);
        let ghost next = views(parts@).subrange(0, i + 1);
        assert(next.drop_last() =~= prev);
        if i > 0 {
            push_all(&mut out, sep);
        }
        push_all(&mut out, &parts[i]);
        assert(next.last() == parts[i as int]@);
        i += 1;
    }
    assert(views(parts@).subrange(0, parts.len() as int) =~= views(parts@));
    out
}

/// `s` with every backslash turned into a forward slash.
pub fn slashes_forward(s: &[char]) -> (res: Vec<char>)
    ensures
        res@ == backslash_to_slash(s@),
{
    let mut out: Vec<char> = Vec::new();
    let mut i: usize = 0;
    while i < s.len()
        invariant
            i <= s.len(),
            out@ == backslash_to_slash(s@.subrange(0, i as int)),
        decreases s.len() - i,
    {
        let c = s[i];
        out.push(if c == '\\' { '/' } else { c });
        assert(backslash_to_slash(s@.subrange(0, i + 1)) =~= backslash_to_slash(
            s@.subrange(0, i as int),
        ).push(if c == '\\' { '/' } else { c }));
        i += 1;
    }
    assert(s@.subrange(0, s.len() as int) =~= s@);
    out
}

/// `s` without its trailing path separators.
pub fn trim_end_sep_chars(s: &[char]) -> (res: Vec<char>)
    ensures
        res@ == trim_end_seps(s@),
{
    let mut j: usize = s.len();
    assert(s@.subrange(0, s.len() as int) =~= s@);
    while j > 0 && (s[j - 1] == '/' || s[j - 1] == '\\')
        invariant
            j <= s.len(),
            trim_end_seps(s@) == trim_end_seps(s@.subrange(0, j as int)),
        decreases j,
    {
        assert(s@.subrange(0, j as int).drop_last() =~= s@.subrange(0, j - 1));
        j -= 1;
    }
    proof {
        let kept = s@.subrange(0, j as int);
        if kept.len() > 0 {
            assert(kept.last() == s@[j - 1]);
        }
    }
    assert(s@.subrange(0, s.len() as int) =~= s@);
    slice_chars(s, 0, j)
}

/// Whether `pat` occurs in `s` starting at index `i`.
pub open spec fn occurs_at(s: Seq<char>, pat: Seq<char>, i: int) -> bool {
    0 <= i && i + pat.len() <= s.len() && s.subrange(i, i + pat.len()) == pat
}

/// Whether `pat` occurs in `s` at `i` and nowhere before.
pub open spec fn first_occurrence(s: Seq<char>, pat: Seq<char>, i: int) -> bool {
    occurs_at(s, pat, i) && forall|j: int| 0 <= j < i ==> !occurs_at(s, pat, j)
}

/// Whether `pat` occurs in `s` at index `i`.
pub fn matches_at(s: &[char], pat: &[char], i: usize) -> (res: bool)
    ensures
        res == occurs_at(s@, pat@, i as int),
{
    if i > s.len() || pat.len() > s.len() - i {
        return false;
    }
    let mut k: usize = 0;
    while k < pat.len()
        invariant
            k <= pat.len(),
            i + pat.len() <= s.len(),
            forall|m: int| 0 <= m < k ==> s@[i + m] == pat@[m],
        decreases pat.len() - k,
    {
        if s[i + k] != pat[k] {
            assert(s@.subrange(i as int, i + pat.len())[k as int] != pat@[k as int]);
            return false;
        }
        k += 1;
    }
    assert(s@.subrange(i as int, i + pat.len()) =~= pat@);
    true
}

/// `s` with the first occurrence of `pat` replaced by `rep`, as
/// `str::replacen(pat, rep, 1)` does.
pub fn replace_first(s: &[char], pat: &[char], rep: &[char]) -> (res: Vec<char>)
    requires
        pat@.len() > 0,
    ensures
        (forall|j: int| !occurs_at(s@, pat@, j)) ==> res@ == s@,
        forall|i: int|
            first_occurrence(s@, pat@, i) ==> res@ == s@.subrange(0, i) + rep@ + s@.subrange(
                i + pat@.len(),
                s@.len() as int,
            ),
{
    let mut i: usize = 0;
    while i < s.len()
        invariant
            i <= s.len(),
            forall|j: int| 0 <= j < i ==> !occurs_at(s@, pat@, j),
        decreases s.len() - i,
    {
        if matches_at(s, pat, i) {
            let mut out = slice_chars(s, 0, i);
            push_all(&mut out, rep);
            let rest = slice_chars(s, i + pat.len(), s.len());
            push_all(&mut out, &rest);
            proof {
                assert forall|k: int| first_occurrence(s@, pat@, k) implies k == i by {
                    if k < i {
                    } else if k > i {
                        assert(!occurs_at(s@, pat@, i as int));
                    }
                }
            }
            return out;
        }
        i += 1;
    }
    proof {
        assert forall|j: int| !occurs_at(s@, pat@, j) by {
            if 0 <= j < s.len() {
            }
        }
    }
    copy_chars(s)
}

/// Text with no separator is a single segment: itself.
pub proof fn lemma_segments_without_separator(s: Seq<char>, both: bool)
    requires
        forall|k: int| 0 <= k < s.len() ==> !is_sep(#[trigger] s[k], both),
    ensures
        segments(s, both) == seq![s],
    decreases s.len(),
{
    if s.len() == 0 {
        assert(s =~= Seq::<char>::empty());
    } else {
        let p = s.drop_last();
        assert forall|k: int| 0 <= k < p.len() implies !is_sep(#[trigger] p[k], both) by {
            assert(p[k] == s[k]);
        }
        lemma_segments_without_separator(p, both);
        assert(!is_sep(s[s.len() - 1], both));
        assert(p.push(s.last()) =~= s);
        let r = segments(p, both);
        assert(r.len() == 1 && r.last() == p);
        assert(r.update(r.len() - 1, r.last().push(s.last())) =~= seq![s]);
    }
}

} // verus!
