//! Timestamps and the small shared types of the application.
use vstd::prelude::*;
use crate::path::StrictPath;
use crate::text::{chars_of, string_of};

verus! {

/// Whether an edit changed something.
#[derive(Clone, Copy, Debug, PartialEq, Eq)]
pub enum Change {
    Same,
    Different,
}

/// The errors that the application reports to the user.
#[derive(Clone, Debug, PartialEq, Eq)]
pub enum Error {
    ConfigInvalid { why: String },
    NoMediaFound,
    PlaylistInvalid { why: String },
    UnableToOpenPath(StrictPath),
    UnableToOpenUrl(String),
    UnableToSavePlaylist { why: String },
}

/// The name of the application's directory.
pub const APP_DIR_NAME: &'static str = "com.mtkennerly.madamiru";

/// The name of the file whose presence beside the executable makes the
/// application portable.
pub const PORTABLE_FLAG_FILE_NAME: &'static str = "madamiru.portable";

/// The decimal digit `d` as a character.
pub open spec fn digit_char(d: int) -> char {
    if d == 0 {
        '0'
    } else if d == 1 {
        '1'
    } else if d == 2 {
        '2'
    } else if d == 3 {
        '3'
    } else if d == 4 {
        '4'
    } else if d == 5 {
        '5'
    } else if d == 6 {
        '6'
    } else if d == 7 {
        '7'
    } else if d == 8 {
        '8'
    } else {
        '9'
    }
}

/// The value of a decimal digit character.
pub open spec fn digit_value(c: char) -> int {
    if c == '0' {
        0
    } else if c == '1' {
        1
    } else if c == '2' {
        2
    } else if c == '3' {
        3
    } else if c == '4' {
        4
    } else if c == '5' {
        5
    } else if c == '6' {
        6
    } else if c == '7' {
        7
    } else if c == '8' {
        8
    } else {
        9
    }
}

/// `n` in decimal, without leading zeros.
pub open spec fn decimal(n: nat) -> Seq<char>
    decreases n,
{
    if n < 10 {
        seq![digit_char(n as int)]
    } else {
        decimal(n / 10).push(digit_char((n % 10) as int))
    }
}

/// `n` in decimal, padded with zeros to at least two digits (`{:02}`).
pub open spec fn pad2(n: nat) -> Seq<char> {
    if n < 10 {
        seq!['0', digit_char(n as int)]
    } else {
        decimal(n)
    }
}

/// The number that a string of decimal digits spells.
pub open spec fn decimal_value(s: Seq<char>) -> int
    decreases s.len(),
{
    if s.len() == 0 {
        0
    } else {
        decimal_value(s.drop_last()) * 10 + digit_value(s.last())
    }
}

pub open spec fn mmss(seconds: nat) -> Seq<char> {
    pad2(seconds / 60) + seq![':'] + pad2(seconds % 60)
}

pub open spec fn hhmmss(seconds: nat) -> Seq<char> {
    pad2(seconds / 3600) + seq![':'] + pad2((seconds % 3600) / 60) + seq![':'] + pad2(
        seconds % 60,
    )
}

fn digit(d: u64) -> (c: char)
    requires
        d < 10,
    ensures
        c == digit_char(d as int),
{
    if d == 0 {
        '0'
    } else if d == 1 {
        '1'
    } else if d == 2 {
        '2'
    } else if d == 3 {
        '3'
    } else if d == 4 {
        '4'
    } else if d == 5 {
        '5'
    } else if d == 6 {
        '6'
    } else if d == 7 {
        '7'
    } else if d == 8 {
        '8'
    } else {
        '9'
    }
}

fn push_decimal(out: &mut Vec<char>, n: u64)
    ensures
        final(out)@ == old(out)@ + decimal(n as nat),
    decreases n,
{
    if n < 10 {
        out.push(digit(n));
        assert(final(out)@ =~= old(out)@ + decimal(n as nat));
    } else {
        push_decimal(out, n / 10);
        out.push(digit(n % 10));
        assert(out@ =~= old(out)@ + decimal(n as nat));
    }
}

fn push_pad2(out: &mut Vec<char>, n: u64)
    ensures
        final(out)@ == old(out)@ + pad2(n as nat),
{
    if n < 10 {
        out.push('0');
        out.push(digit(n));
        assert(out@ =~= old(out)@ + pad2(n as nat));
    } else {
        push_decimal(out, n);
    }
}

/// `n` in decimal, as `to_string` writes it.
pub fn decimal_string(n: u64) -> (res: String)
    ensures
        res@ == decimal(n as nat),
{
    let mut out: Vec<char> = Vec::new();
    push_decimal(&mut out, n);
    assert(out@ =~= decimal(n as nat));
    string_of(&out)
}

/// `seconds` as minutes and seconds, each at least two digits: `mm:ss`.
pub fn timestamp_mmss(seconds: u64) -> (res: String)
    ensures
        res@ == mmss(seconds as nat),
{
    let minutes = seconds / 60;
    let rest = seconds % 60;
    let mut out: Vec<char> = Vec::new();
    push_pad2(&mut out, minutes);
    out.push(':');
    push_pad2(&mut out, rest);
    assert(out@ =~= mmss(seconds as nat));
    string_of(&out)
}

/// `seconds` as hours, minutes and seconds, each at least two digits:
/// `hh:mm:ss`.
pub fn timestamp_hhmmss(seconds: u64) -> (res: String)
    ensures
        res@ == hhmmss(seconds as nat),
{
    let hours = seconds / (60 * 60);
    let rest = seconds % (60 * 60);
    let minutes = rest / 60;
    let secs = rest % 60;
    let mut out: Vec<char> = Vec::new();
    push_pad2(&mut out, hours);
    out.push(':');
    push_pad2(&mut out, minutes);
    out.push(':');
    push_pad2(&mut out, secs);
    assert(out@ =~= hhmmss(seconds as nat));
    string_of(&out)
}

proof fn lemma_digit(d: int)
    requires
        0 <= d < 10,
    ensures
        digit_value(digit_char(d)) == d,
{
}

proof fn lemma_decimal_value(n: nat)
    ensures
        decimal_value(decimal(n)) == n,
    decreases n,
{
    if n >= 10 {
        lemma_decimal_value(n / 10);
        lemma_digit((n % 10) as int);
        assert(decimal(n).drop_last() =~= decimal(n / 10));
        assert(decimal(n).last() == digit_char((n % 10) as int));
        assert(n == (n / 10) * 10 + n % 10) by (nonlinear_arith);
        assert(decimal_value(decimal(n)) == decimal_value(decimal(n / 10)) * 10 + digit_value(
            decimal(n).last(),
        ));
    } else {
        lemma_digit(n as int);
        assert(decimal(n).drop_last() =~= Seq::<char>::empty());
        assert(decimal_value(Seq::<char>::empty()) == 0);
    }
}

proof fn lemma_pad2_value(n: nat)
    ensures
        decimal_value(pad2(n)) == n,
        pad2(n).len() >= 2,
{
    lemma_decimal_value(n);
    if n < 10 {
        lemma_digit(n as int);
        lemma_digit(0);
        assert(pad2(n).drop_last() =~= seq!['0']);
        assert(seq!['0'].drop_last() =~= Seq::<char>::empty());
        assert(decimal_value(Seq::<char>::empty()) == 0);
        assert(decimal_value(seq!['0']) == 0);
        assert(decimal_value(pad2(n)) == decimal_value(seq!['0']) * 10 + digit_value(
            pad2(n).last(),
        ));
    } else {
        lemma_decimal_len(n);
    }
}

proof fn lemma_decimal_len(n: nat)
    requires
        n >= 10,
    ensures
        decimal(n).len() >= 2,
{
    assert(decimal(n / 10).len() >= 1);
}

/// `n` in decimal is one or more decimal digits that spell `n`.
pub proof fn lemma_decimal_digits(n: nat)
    ensures
        decimal(n).len() >= 1,
        all_digits(decimal(n)),
        decimal_value(decimal(n)) == n,
    decreases n,
{
    lemma_decimal_value(n);
    if n >= 10 {
        lemma_decimal_digits(n / 10);
        assert forall|i: int| 0 <= i < decimal(n).len() implies is_digit(#[trigger] decimal(n)[i]) by {
            if i < decimal(n / 10).len() {
                assert(decimal(n)[i] == decimal(n / 10)[i]);
            }
        }
    }
}

/// Reading a `timestamp_mmss` back: the part before the colon spells the
/// whole minutes and the part after it the remaining seconds, each with at
/// least two digits.
pub proof fn law_mmss_reads_back(seconds: nat)
    ensures
        ({
            let s = mmss(seconds);
            let k = pad2(seconds / 60).len() as int;
            &&& s[k] == ':'
            &&& k >= 2
            &&& s.len() - k - 1 >= 2
            &&& decimal_value(s.subrange(0, k)) == seconds / 60
            &&& decimal_value(s.subrange(k + 1, s.len() as int)) == seconds % 60
        }),
{
    let s = mmss(seconds);
    let a = pad2(seconds / 60);
    let b = pad2(seconds % 60);
    lemma_pad2_value(seconds / 60);
    lemma_pad2_value(seconds % 60);
    assert(s.subrange(0, a.len() as int) =~= a);
    assert(s.subrange(a.len() as int + 1, s.len() as int) =~= b);
}

/// Reading a `timestamp_hhmmss` back: its three colon-separated fields
/// spell the whole hours, the remaining whole minutes and the remaining
/// seconds, each with at least two digits.
pub proof fn law_hhmmss_reads_back(seconds: nat)
    ensures
        ({
            let s = hhmmss(seconds);
            let h = pad2(seconds / 3600).len() as int;
            let m = pad2((seconds % 3600) / 60).len() as int;
            &&& s[h] == ':'
            &&& s[h + 1 + m] == ':'
            &&& h >= 2 && m >= 2 && s.len() - (h + m + 2) >= 2
            &&& decimal_value(s.subrange(0, h)) == seconds / 3600
            &&& decimal_value(s.subrange(h + 1, h + 1 + m)) == (seconds % 3600) / 60
            &&& decimal_value(s.subrange(h + m + 2, s.len() as int)) == seconds % 60
        }),
{
    let s = hhmmss(seconds);
    let a = pad2(seconds / 3600);
    let b = pad2((seconds % 3600) / 60);
    let c = pad2(seconds % 60);
    lemma_pad2_value(seconds / 3600);
    lemma_pad2_value((seconds % 3600) / 60);
    lemma_pad2_value(seconds % 60);
    assert(s.subrange(0, a.len() as int) =~= a);
    assert(s.subrange(a.len() as int + 1, a.len() as int + 1 + b.len() as int) =~= b);
    assert(s.subrange(a.len() as int + b.len() as int + 2, s.len() as int) =~= c);
}

/// Whether `c` is an ASCII decimal digit.
pub open spec fn is_digit(c: char) -> bool {
    '0' <= c && c <= '9'
}

/// What `str::parse::<u32>` gives: an optional leading `+`, then one or
/// more decimal digits whose value fits in a `u32`.
pub open spec fn parse_u32_of(s: Seq<char>) -> Option<u32> {
    let d = unsigned_digits(s);
    if d.len() > 0 && all_digits(d) && decimal_value(d) <= u32::MAX {
        Some(decimal_value(d) as u32)
    } else {
        None
    }
}

/// `s` without a leading `+`.
pub open spec fn unsigned_digits(s: Seq<char>) -> Seq<char> {
    if s.len() > 0 && s[0] == '+' {
        s.drop_first()
    } else {
        s
    }
}

/// Whether every character of `d` is a decimal digit.
pub open spec fn all_digits(d: Seq<char>) -> bool {
    forall|i: int| 0 <= i < d.len() ==> is_digit(#[trigger] d[i])
}

/// The pieces of `s` between dots, as `str::split('.')` yields them.
pub open spec fn dot_pieces(s: Seq<char>) -> Seq<Seq<char>>
    decreases s.len(),
{
    if s.len() == 0 {
        seq![Seq::<char>::empty()]
    } else {
        let r = dot_pieces(s.drop_last());
        if s.last() == '.' {
            r.push(Seq::<char>::empty())
        } else {
            r.update(r.len() - 1, r.last().push(s.last()))
        }
    }
}

/// The version triple of a dotted version: each of exactly three pieces
/// read as a `u32` (zero where it is not one), else all zeros.
pub open spec fn version_of(s: Seq<char>) -> (u32, u32, u32) {
    let p = dot_pieces(s);
    if p.len() != 3 {
        (0, 0, 0)
    } else {
        (
            match parse_u32_of(p[0]) {
                Some(v) => v,
                None => 0,
            },
            match parse_u32_of(p[1]) {
                Some(v) => v,
                None => 0,
            },
            match parse_u32_of(p[2]) {
                Some(v) => v,
                None => 0,
            },
        )
    }
}

proof fn lemma_dot_pieces_nonempty(s: Seq<char>)
    ensures
        dot_pieces(s).len() >= 1,
    decreases s.len(),
{
    if s.len() > 0 {
        lemma_dot_pieces_nonempty(s.drop_last());
    }
}

/// The number that `s` spells (an optional leading `+`, then one or more
/// decimal digits), where it is at most `max`.
pub open spec fn parse_bounded_of(s: Seq<char>, max: int) -> Option<int> {
    let d = unsigned_digits(s);
    if d.len() > 0 && all_digits(d) && decimal_value(d) <= max {
        Some(decimal_value(d))
    } else {
        None
    }
}

/// What `str::parse::<usize>` gives.
pub open spec fn parse_usize_of(s: Seq<char>) -> Option<usize> {
    match parse_bounded_of(s, usize::MAX as int) {
        Some(v) => Some(v as usize),
        None => None,
    }
}

pub open spec fn opt_int(o: Option<u64>) -> Option<int> {
    match o {
        Some(v) => Some(v as int),
        None => None,
    }
}

/// Reads the number that `s` spells, where it is at most `max`.
fn parse_bounded(s: &[char], max: u64) -> (res: Option<u64>)
    ensures
        opt_int(res) == parse_bounded_of(s@, max as int),
{
    let start: usize = if s.len() > 0 && s[0] == '+' {
        1
    } else {
        0
    };
    let ghost d = unsigned_digits(s@);
    assert(d =~= s@.subrange(start as int, s@.len() as int));
    if start >= s.len() {
        return None;
    }
    let mut value: u64 = 0;
    let mut i: usize = start;
    while i < s.len()
        invariant
            start <= i <= s.len(),
            d =~= s@.subrange(start as int, s@.len() as int),
            d == unsigned_digits(s@),
            forall|k: int| start <= k < i ==> is_digit(#[trigger] s@[k]),
            value == decimal_value(s@.subrange(start as int, i as int)),
            value <= max,
        decreases s.len() - i,
    {
        let c = s[i];
        let ghost prev = s@.subrange(start as int, i as int);
        let ghost next = s@.subrange(start as int, i + 1);
        assert(next.drop_last() =~= prev);
        if !('0' <= c && c <= '9') {
            assert(d[i - start] == c);
            assert(!is_digit(d[i - start]));
            assert(!all_digits(d));
            return None;
        }
        let dv: u128 = (c as u32 - '0' as u32) as u128;
        assert(dv == digit_value(c)) by {
            assert(is_digit(c));
        }
        let nv: u128 = (value as u128) * 10 + dv;
        assert(nv == decimal_value(next));
        if nv > max as u128 {
            proof {
                if all_digits(d) {
                    lemma_decimal_value_grows(d, (i + 1 - start) as int);
                    assert(d.subrange(0, (i + 1 - start) as int) =~= next);
                }
            }
            return None;
        }
        value = nv as u64;
        i += 1;
    }
    assert(s@.subrange(start as int, s.len() as int) =~= d);
    Some(value)
}

/// Reads a string as a `u32` the way `str::parse::<u32>` does.
pub fn parse_u32(s: &[char]) -> (res: Option<u32>)
    ensures
        res == parse_u32_of(s@),
{
    match parse_bounded(s, u32::MAX as u64) {
        Some(v) => Some(v as u32),
        None => None,
    }
}

/// Reads a string as a `usize` the way `str::parse::<usize>` does.
pub fn parse_usize(s: &[char]) -> (res: Option<usize>)
    ensures
        res == parse_usize_of(s@),
{
    match parse_bounded(s, usize::MAX as u64) {
        Some(v) => Some(v as usize),
        None => None,
    }
}

proof fn lemma_decimal_value_grows(d: Seq<char>, n: int)
    requires
        0 <= n <= d.len(),
        forall|i: int| 0 <= i < d.len() ==> is_digit(#[trigger] d[i]),
    ensures
        decimal_value(d.subrange(0, n)) <= decimal_value(d),
        decimal_value(d.subrange(0, n)) >= 0,
    decreases d.len() - n,
{
    lemma_decimal_value_nonneg(d);
    if n < d.len() {
        lemma_decimal_value_grows(d.drop_last(), n);
        assert(d.drop_last().subrange(0, n) =~= d.subrange(0, n));
        lemma_decimal_value_nonneg(d.drop_last());
    } else {
        assert(d.subrange(0, n) =~= d);
    }
}

proof fn lemma_decimal_value_nonneg(d: Seq<char>)
    ensures
        decimal_value(d) >= 0,
    decreases d.len(),
{
    if d.len() > 0 {
        lemma_decimal_value_nonneg(d.drop_last());
    }
}

/// The pieces of `s` between dots.
pub fn split_dots(s: &[char]) -> (res: Vec<Vec<char>>)
    ensures
        crate::text::views(res@) == dot_pieces(s@),
{
    let mut out: Vec<Vec<char>> = Vec::new();
    let mut cur: Vec<char> = Vec::new();
    let mut i: usize = 0;
    assert(s@.subrange(0, 0) =~= Seq::<char>::empty());
    while i < s.len()
        invariant
            i <= s.len(),
            crate::text::views(out@).push(cur@) == dot_pieces(s@.subrange(0, i as int)),
        decreases s.len() - i,
    {
        let ghost prev = s@.subrange(0, i as int);
        let ghost next = s@.subrange(0, i + 1);
        assert(next.drop_last() =~= prev);
        assert(next.last() == s@[i as int]);
        let ghost r = dot_pieces(prev);
        let c = s[i];
        if c == '.' {
            let ghost before = out@;
            let ghost cv = cur@;
            let done = cur;
            out.push(done);
            assert(crate::text::views(out@) =~= crate::text::views(before).push(cv));
            cur = Vec::new();
            assert(crate::text::views(out@).push(cur@) =~= r.push(Seq::<char>::empty()));
        } else {
            let ghost before = crate::text::views(out@);
            cur.push(c);
            assert(crate::text::views(out@) == before);
            assert(before.push(cur@) =~= r.update(r.len() - 1, r.last().push(c)));
        }
        i += 1;
    }
    assert(s@.subrange(0, s.len() as int) =~= s@);
    let ghost before = out@;
    let ghost cv = cur@;
    out.push(cur);
    assert(crate::text::views(out@) =~= crate::text::views(before).push(cv));
    out
}

/// The version triple of a dotted version such as the package's: each of
/// exactly three pieces read as a number (zero where it is not one), else
/// all zeros.
pub fn canonical_version(version: &str) -> (res: (u32, u32, u32))
    ensures
        res == version_of(version@),
{
    let cs = chars_of(version);
    let parts = split_dots(&cs);
    proof {
        lemma_dot_pieces_nonempty(version@);
    }
    if parts.len() != 3 {
        return (0, 0, 0);
    }
    assert(crate::text::views(parts@)[0] == parts[0]@);
    assert(crate::text::views(parts@)[1] == parts[1]@);
    assert(crate::text::views(parts@)[2] == parts[2]@);
    let a = match parse_u32(&parts[0]) {
        Some(v) => v,
        None => 0,
    };
    let b = match parse_u32(&parts[1]) {
        Some(v) => v,
        None => 0,
    };
    let c = match parse_u32(&parts[2]) {
        Some(v) => v,
        None => 0,
    };
    (a, b, c)
}

} // verus!
