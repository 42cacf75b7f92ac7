//! Reading the display tool's query report: which displays are connected, and the
//! size and refresh rate of each one's active mode.

use vstd::prelude::*;
use crate::display::{DisplayInfo, DisplayView, DEFAULT_REFRESH_MILLIHERTZ};
use crate::scan::{
    contains, contains_text, find_char, has_char, has_char_in, lines_of, split_lines,
    split_once, split_tokens, tokens, trim_end, trim_end_at, views,
};
use crate::text::{all_digits, chars_of, digits_u32, digits_value, is_digit, parse_digits_u32, string_from_chars};

verus! {

/// A size whose two sides were both read.
pub open spec fn both_sides(w: Option<u32>, h: Option<u32>) -> Option<(u32, u32)> {
    match (w, h) {
        (Some(w), Some(h)) => Some((w, h)),
        _ => None,
    }
}

/// The size in a geometry token such as `1920x1080+0+0`: the part before the first
/// `+`, split at its first `x` into two decimals.
pub open spec fn geometry_size(t: Seq<char>) -> Option<(u32, u32)> {
    match split_once(t, '+') {
        Some((res, _)) => match split_once(res, 'x') {
            Some((w, h)) => both_sides(digits_u32(w), digits_u32(h)),
            None => None,
        },
        None => None,
    }
}

/// The size of the first token that is a geometry.
pub open spec fn first_geometry(toks: Seq<Seq<char>>) -> Option<(u32, u32)>
    decreases toks.len(),
{
    if toks.len() == 0 {
        None
    } else if geometry_size(toks[0]) is Some {
        geometry_size(toks[0])
    } else {
        first_geometry(toks.drop_first())
    }
}

/// Number of leading ASCII digits of `s`.
pub open spec fn digit_run(s: Seq<char>) -> nat
    decreases s.len(),
{
    if s.len() > 0 && is_digit(s[0]) {
        1 + digit_run(s.drop_first())
    } else {
        0
    }
}

/// The size in a mode name such as `1920x1080` or `1920x1080i`: the decimal before
/// the first `x`, and the digits that follow it, any suffix left aside.
pub open spec fn mode_size(t: Seq<char>) -> Option<(u32, u32)> {
    match split_once(t, 'x') {
        Some((w, rest)) => both_sides(digits_u32(w), digits_u32(rest.take(digit_run(rest) as int))),
        None => None,
    }
}

/// Three decimals' worth of the fraction digits `f`, in thousandths.
pub open spec fn fraction_millis(f: Seq<char>) -> nat {
    if f.len() >= 3 {
        digits_value(f.take(3))
    } else if f.len() == 2 {
        digits_value(f) * 10
    } else if f.len() == 1 {
        digits_value(f) * 100
    } else {
        0
    }
}

/// A decimal such as `59.94` in thousandths, when it fits in 32 bits; digits beyond
/// the third decimal are dropped.
pub open spec fn decimal_millis(t: Seq<char>) -> Option<u32> {
    let (ip, fp) = match split_once(t, '.') {
        Some((a, b)) => (a, b),
        None => (t, Seq::<char>::empty()),
    };
    let v = digits_value(ip) * 1000 + fraction_millis(fp);
    if ip.len() > 0 && all_digits(ip) && all_digits(fp) && v <= u32::MAX {
        Some(v as u32)
    } else {
        None
    }
}

/// The refresh rate in a rate token such as `59.94*`: the markers at its end trimmed,
/// `*` first and then `+`; the default rate when what is left is no positive decimal.
pub open spec fn rate_of(t: Seq<char>) -> u32 {
    match decimal_millis(trim_end(trim_end(t, '*'), '+')) {
        Some(v) => if v > 0 {
            v
        } else {
            DEFAULT_REFRESH_MILLIHERTZ
        },
        None => DEFAULT_REFRESH_MILLIHERTZ,
    }
}

/// The first token that holds the active marker `*`.
pub open spec fn first_starred(toks: Seq<Seq<char>>) -> Option<Seq<char>>
    decreases toks.len(),
{
    if toks.len() == 0 {
        None
    } else if has_char(toks[0], '*') {
        Some(toks[0])
    } else {
        first_starred(toks.drop_first())
    }
}

/// A mode line: its first token starts with a digit.
pub open spec fn is_mode_line(l: Seq<char>) -> bool {
    let t = tokens(l);
    t.len() > 0 && t[0].len() > 0 && is_digit(t[0][0])
}

/// A line of the current output's block: it starts with a space or a tab.
pub open spec fn is_indented(l: Seq<char>) -> bool {
    l.len() > 0 && (l[0] == ' ' || l[0] == '\t')
}

/// The mode of a mode line that carries the active marker: the size from its first
/// token, the rate from the first token with the marker.
pub open spec fn active_mode(l: Seq<char>) -> Option<(u32, u32, u32)> {
    let t = tokens(l);
    if is_mode_line(l) && has_char(l, '*') {
        match mode_size(t[0]) {
            Some((w, h)) => Some(
                (
                    w,
                    h,
                    match first_starred(t) {
                        Some(r) => rate_of(r),
                        None => DEFAULT_REFRESH_MILLIHERTZ,
                    },
                ),
            ),
            None => None,
        }
    } else {
        None
    }
}

/// The first active mode among the lines of the block that starts at line `j`; the
/// block ends at the first line that is neither a mode line nor indented.
pub open spec fn block_mode(ls: Seq<Seq<char>>, j: int) -> Option<(u32, u32, u32)>
    decreases ls.len() - j,
{
    if j < 0 || j >= ls.len() {
        None
    } else if is_mode_line(ls[j]) || is_indented(ls[j]) {
        if active_mode(ls[j]) is Some {
            active_mode(ls[j])
        } else {
            block_mode(ls, j + 1)
        }
    } else {
        None
    }
}

/// The active mode of the output whose header is line `i`: the geometry on the header
/// itself, at the default rate, or else the active mode line of its block.
pub open spec fn resolve_mode(ls: Seq<Seq<char>>, i: int) -> Option<(u32, u32, u32)> {
    match first_geometry(tokens(ls[i])) {
        Some((w, h)) => Some((w, h, DEFAULT_REFRESH_MILLIHERTZ)),
        None => block_mode(ls, i + 1),
    }
}

/// The header line of a connected output.
pub open spec fn is_connected_header(l: Seq<char>) -> bool {
    contains(l, " connected"@) && !contains(l, "disconnected"@) && tokens(l).len() > 0
}

/// One of the tokens of `l` is the word `primary`.
pub open spec fn has_primary_token(l: Seq<char>) -> bool {
    exists|k: int| 0 <= k < tokens(l).len() && tokens(l)[k] == "primary"@
}

/// The display that line `i` introduces, if it is a connected header whose mode was
/// read and has a positive size.
pub open spec fn display_at(ls: Seq<Seq<char>>, i: int) -> Option<DisplayView> {
    if 0 <= i < ls.len() && is_connected_header(ls[i]) {
        match resolve_mode(ls, i) {
            Some((w, h, r)) => if w == 0 || h == 0 {
                None
            } else {
                Some(
                DisplayView {
                    name: tokens(ls[i])[0],
                    width: w,
                    height: h,
                    refresh_millihertz: r,
                    is_primary: has_primary_token(ls[i]),
                },
            )
            },
            None => None,
        }
    } else {
        None
    }
}

/// The displays introduced from line `i` on, in order.
pub open spec fn displays_from(ls: Seq<Seq<char>>, i: int) -> Seq<DisplayView>
    decreases ls.len() - i,
{
    if i < 0 || i >= ls.len() {
        Seq::empty()
    } else {
        match display_at(ls, i) {
            Some(d) => seq![d] + displays_from(ls, i + 1),
            None => displays_from(ls, i + 1),
        }
    }
}

/// The displays that a report describes.
pub open spec fn report_displays(report: Seq<char>) -> Seq<DisplayView> {
    displays_from(lines_of(report), 0)
}

/// The size in a geometry token.
pub fn geometry_of(t: &Vec<char>) -> (r: Option<(u32, u32)>)
    ensures
        r == geometry_size(t@),
{
    let n = t.len();
    assert(t@.subrange(0, n as int) =~= t@);
    let p = match find_char(t, 0, n, '+') {
        Some(p) => p,
        None => return None,
    };
    let x = match find_char(t, 0, p, 'x') {
        Some(x) => x,
        None => return None,
    };
    assert(t@.subrange(0, p as int).subrange(0, x as int) =~= t@.subrange(0, x as int));
    assert(t@.subrange(0, p as int).subrange(x + 1, p as int) =~= t@.subrange(x + 1, p as int));
    let w = parse_digits_u32(t, 0, x);
    let h = parse_digits_u32(t, x + 1, p);
    match (w, h) {
        (Some(w), Some(h)) => Some((w, h)),
        _ => None,
    }
}

/// The size of the first geometry token among `toks`.
pub fn first_geometry_of(toks: &Vec<Vec<char>>) -> (r: Option<(u32, u32)>)
    ensures
        r == first_geometry(views(toks@)),
{
    let ghost all = views(toks@);
    assert(all.subrange(0, all.len() as int) =~= all);
    let mut k: usize = 0;
    while k < toks.len()
        invariant
            k <= toks@.len(),
            all == views(toks@),
            first_geometry(all) == first_geometry(all.subrange(k as int, all.len() as int)),
        decreases toks@.len() - k,
    {
        let ghost rest = all.subrange(k as int, all.len() as int);
        assert(rest[0] == toks@[k as int]@);
        assert(rest.drop_first() =~= all.subrange(k + 1, all.len() as int));
        let g = geometry_of(&toks[k]);
        if g.is_some() {
            return g;
        }
        k = k + 1;
    }
    None
}

/// The number of leading digits of `s[lo..hi]`.
pub fn digit_run_in(s: &Vec<char>, lo: usize, hi: usize) -> (r: usize)
    requires
        lo <= hi <= s@.len(),
    ensures
        lo + r <= hi,
        r as nat == digit_run(s@.subrange(lo as int, hi as int)),
{
    let mut i: usize = lo;
    while i < hi && '0' <= s[i] && s[i] <= '9'
        invariant
            lo <= i <= hi <= s@.len(),
            digit_run(s@.subrange(lo as int, hi as int)) == (i - lo) + digit_run(
                s@.subrange(i as int, hi as int),
            ),
        decreases hi - i,
    {
        assert(s@.subrange(i as int, hi as int).drop_first() =~= s@.subrange(i + 1, hi as int));
        i = i + 1;
    }
    i - lo
}

/// The size in a mode name.
pub fn mode_size_of(t: &Vec<char>) -> (r: Option<(u32, u32)>)
    ensures
        r == mode_size(t@),
{
    let n = t.len();
    assert(t@.subrange(0, n as int) =~= t@);
    let x = match find_char(t, 0, n, 'x') {
        Some(x) => x,
        None => return None,
    };
    let run = digit_run_in(t, x + 1, n);
    assert(t@.subrange(x + 1, n as int).take(run as int) =~= t@.subrange(x + 1, x + 1 + run));
    let w = parse_digits_u32(t, 0, x);
    let h = parse_digits_u32(t, x + 1, x + 1 + run);
    match (w, h) {
        (Some(w), Some(h)) => Some((w, h)),
        _ => None,
    }
}

/// A decimal in `s[lo..hi]`, in thousandths.
pub fn decimal_millis_in(s: &Vec<char>, lo: usize, hi: usize) -> (r: Option<u32>)
    requires
        lo <= hi <= s@.len(),
    ensures
        r == decimal_millis(s@.subrange(lo as int, hi as int)),
{
    let ghost t = s@.subrange(lo as int, hi as int);
    let (ie, fs) = match find_char(s, lo, hi, '.') {
        Some(d) => (d, d + 1),
        None => (hi, hi),
    };
    let ghost ip = s@.subrange(lo as int, ie as int);
    let ghost fp = s@.subrange(fs as int, hi as int);
    proof {
        if split_once(t, '.') is None {
            assert(ip =~= t);
            assert(fp =~= Seq::<char>::empty());
        }
    }
    let ip_v = parse_digits_u32(s, lo, ie);
    let mut frac: u64 = 0;
    let mut scale: u64 = 100;
    let mut i: usize = fs;
    let mut ok = true;
    while i < hi
        invariant
            fs <= i <= hi <= s@.len(),
            fp == s@.subrange(fs as int, hi as int),
            ok == all_digits(s@.subrange(fs as int, i as int)),
            ok ==> frac as nat == fraction_millis(s@.subrange(fs as int, i as int)),
            ok && i - fs < 3 ==> scale as nat == (if i - fs == 0 {
                100nat
            } else if i - fs == 1 {
                10nat
            } else {
                1nat
            }),
            ok && i - fs >= 3 ==> scale == 0,
            frac <= 999,
        decreases hi - i,
    {
        let ghost pre = s@.subrange(fs as int, i as int);
        let ghost nxt = s@.subrange(fs as int, i + 1);
        assert(nxt.drop_last() =~= pre);
        let c = s[i];
        if ok {
            if '0' <= c && c <= '9' {
                let d = (c as u32 - '0' as u32) as u64;
                assert(nxt.last() == c);
                assert(digits_value(nxt) == digits_value(pre) * 10 + d);
                proof {
                    if pre.len() >= 3 {
                        assert(nxt.take(3) =~= pre.take(3));
                    } else if pre.len() == 2 {
                        assert(nxt.take(3) =~= nxt);
                        assert(fraction_millis(nxt) == digits_value(pre) * 10 + d);
                    } else if pre.len() == 1 {
                        assert(fraction_millis(nxt) == (digits_value(pre) * 10 + d) * 10);
                    } else {
                        assert(digits_value(pre) == 0);
                        assert(fraction_millis(nxt) == d * 100);
                    }
                }
                frac = frac + d * scale;
                scale = scale / 10;
                assert(all_digits(nxt)) by {
                    assert forall|j: int| 0 <= j < nxt.len() implies is_digit(#[trigger] nxt[j]) by {
                        if j < pre.len() {
                            assert(nxt[j] == pre[j]);
                        }
                    }
                }
            } else {
                assert(nxt[nxt.len() - 1] == c);
                ok = false;
            }
        } else {
            assert(!all_digits(nxt)) by {
                let j = choose|j: int| 0 <= j < pre.len() && !is_digit(pre[j]);
                assert(nxt[j] == pre[j]);
            }
        }
        i = i + 1;
    }
    assert(s@.subrange(fs as int, i as int) =~= fp);
    if !ok {
        return None;
    }
    let iv = match ip_v {
        Some(v) => v,
        None => {
            assert(!(ip.len() > 0 && all_digits(ip) && digits_value(ip) * 1000 + fraction_millis(fp) <= u32::MAX)) by {
                if ip.len() > 0 && all_digits(ip) {
                    assert(digits_value(ip) > u32::MAX);
                }
            }
            return None;
        },
    };
    let v: u64 = iv as u64 * 1000 + frac;
    if v > 4_294_967_295 {
        None
    } else {
        Some(v as u32)
    }
}

/// The refresh rate in a rate token.
pub fn rate_in(t: &Vec<char>) -> (r: u32)
    ensures
        r == rate_of(t@),
{
    let n = t.len();
    assert(t@.subrange(0, n as int) =~= t@);
    let e1 = trim_end_at(t, 0, n, '*');
    let e2 = trim_end_at(t, 0, e1, '+');
    match decimal_millis_in(t, 0, e2) {
        Some(v) => if v > 0 {
            v
        } else {
            DEFAULT_REFRESH_MILLIHERTZ
        },
        None => DEFAULT_REFRESH_MILLIHERTZ,
    }
}

/// The first token among `toks` that holds the active marker.
pub fn first_starred_in(toks: &Vec<Vec<char>>) -> (r: Option<usize>)
    ensures
        match r {
            Some(k) => k < toks@.len() && first_starred(views(toks@)) == Some(toks@[k as int]@),
            None => first_starred(views(toks@)) is None,
        },
{
    let ghost all = views(toks@);
    assert(all.subrange(0, all.len() as int) =~= all);
    let mut k: usize = 0;
    while k < toks.len()
        invariant
            k <= toks@.len(),
            all == views(toks@),
            first_starred(all) == first_starred(all.subrange(k as int, all.len() as int)),
        decreases toks@.len() - k,
    {
        let ghost rest = all.subrange(k as int, all.len() as int);
        assert(rest[0] == toks@[k as int]@);
        assert(rest.drop_first() =~= all.subrange(k + 1, all.len() as int));
        if has_char_in(&toks[k], '*') {
            return Some(k);
        }
        k = k + 1;
    }
    None
}

/// Whether `l` is a mode line, and whether it is indented.
pub fn line_kind(l: &Vec<char>, toks: &Vec<Vec<char>>) -> (r: (bool, bool))
    requires
        views(toks@) == tokens(l@),
    ensures
        r.0 == is_mode_line(l@),
        r.1 == is_indented(l@),
{
    let mode = toks.len() > 0 && toks[0].len() > 0 && '0' <= toks[0][0] && toks[0][0] <= '9';
    assert(toks@.len() > 0 ==> views(toks@)[0] == toks@[0]@);
    let indented = l.len() > 0 && (l[0] == ' ' || l[0] == '\t');
    (mode, indented)
}

/// The active mode of a mode line.
pub fn active_mode_of(l: &Vec<char>) -> (r: Option<(u32, u32, u32)>)
    ensures
        r == active_mode(l@),
{
    let toks = split_tokens(l);
    let (mode, _) = line_kind(l, &toks);
    if !mode || !has_char_in(l, '*') {
        return None;
    }
    assert(views(toks@)[0] == toks@[0]@);
    match mode_size_of(&toks[0]) {
        Some((w, h)) => {
            let rate = match first_starred_in(&toks) {
                Some(k) => rate_in(&toks[k]),
                None => DEFAULT_REFRESH_MILLIHERTZ,
            };
            Some((w, h, rate))
        },
        None => None,
    }
}

/// The first active mode in the block that starts at line `j`.
pub fn block_mode_of(ls: &Vec<Vec<char>>, j: usize) -> (r: Option<(u32, u32, u32)>)
    ensures
        r == block_mode(views(ls@), j as int),
{
    let ghost all = views(ls@);
    let mut k: usize = j;
    while k < ls.len()
        invariant
            j <= k,
            all == views(ls@),
            block_mode(all, j as int) == block_mode(all, k as int),
        decreases ls@.len() - k,
    {
        assert(all[k as int] == ls@[k as int]@);
        let toks = split_tokens(&ls[k]);
        let (mode, indented) = line_kind(&ls[k], &toks);
        if !mode && !indented {
            return None;
        }
        let m = active_mode_of(&ls[k]);
        if m.is_some() {
            return m;
        }
        k = k + 1;
    }
    None
}

/// The active mode of the output whose header is line `i`.
pub fn parse_current_mode(ls: &Vec<Vec<char>>, i: usize) -> (r: Option<(u32, u32, u32)>)
    requires
        i < ls@.len(),
    ensures
        r == resolve_mode(views(ls@), i as int),
{
    assert(views(ls@)[i as int] == ls@[i as int]@);
    let toks = split_tokens(&ls[i]);
    let n_lines = ls.len();
    assert(i + 1 <= n_lines);
    match first_geometry_of(&toks) {
        Some((w, h)) => Some((w, h, DEFAULT_REFRESH_MILLIHERTZ)),
        None => block_mode_of(ls, i + 1),
    }
}

/// Whether one of `toks` is the word `primary`.
pub fn has_primary_in(toks: &Vec<Vec<char>>) -> (r: bool)
    ensures
        r == (exists|k: int| 0 <= k < toks@.len() && views(toks@)[k] == "primary"@),
{
    let word = chars_of("primary");
    let mut k: usize = 0;
    while k < toks.len()
        invariant
            k <= toks@.len(),
            word@ == "primary"@,
            forall|j: int| 0 <= j < k ==> views(toks@)[j] != "primary"@,
        decreases toks@.len() - k,
    {
        assert(views(toks@)[k as int] == toks@[k as int]@);
        if same_chars(&toks[k], &word) {
            return true;
        }
        k = k + 1;
    }
    false
}

/// Whether `a` and `b` hold the same characters.
pub fn same_chars(a: &Vec<char>, b: &Vec<char>) -> (r: bool)
    ensures
        r == (a@ == b@),
{
    if a.len() != b.len() {
        return false;
    }
    let mut i: usize = 0;
    while i < a.len()
        invariant
            i <= a@.len(),
            a@.len() == b@.len(),
            forall|j: int| 0 <= j < i ==> a@[j] == b@[j],
        decreases a@.len() - i,
    {
        if a[i] != b[i] {
            return false;
        }
        i = i + 1;
    }
    assert(a@ =~= b@);
    true
}

/// The connected displays that the report `report` describes, in order, each with
/// its active mode; a connected output whose mode cannot be read is left out.
pub fn parse_displays(report: &str) -> (r: Vec<DisplayInfo>)
    ensures
        r@.map_values(|d: DisplayInfo| d@) == report_displays(report@),
        forall|k: int| 0 <= k < r@.len() ==> (#[trigger] r@[k]).wf(),
{
    let chars = chars_of(report);
    let ls = split_lines(&chars);
    let ghost all = views(ls@);
    let mut out: Vec<DisplayInfo> = Vec::new();
    let mut i: usize = 0;
    while i < ls.len()
        invariant
            i <= ls@.len(),
            all == views(ls@),
            out@.map_values(|d: DisplayInfo| d@) + displays_from(all, i as int) == displays_from(all, 0),
            forall|k: int| 0 <= k < out@.len() ==> (#[trigger] out@[k]).wf(),
        decreases ls@.len() - i,
    {
        let ghost before = out@.map_values(|d: DisplayInfo| d@);
        assert(all[i as int] == ls@[i as int]@);
        let line = &ls[i];
        let toks = split_tokens(line);
        let header = contains_text(line, " connected") && !contains_text(line, "disconnected")
            && toks.len() > 0;
        if header {
            match parse_current_mode(&ls, i) {
                Some((w, h, rate)) => if w > 0 && h > 0 {
                    assert(views(toks@)[0] == toks@[0]@);
                    let d = DisplayInfo {
                        name: string_from_chars(&toks[0]),
                        width: w,
                        height: h,
                        refresh_millihertz: rate,
                        is_primary: has_primary_in(&toks),
                    };
                    out.push(d);
                    assert(out@.map_values(|d: DisplayInfo| d@) =~= before.push(d@));
                    assert(displays_from(all, i as int) == seq![d@] + displays_from(all, i + 1));
                    assert(before.push(d@) + displays_from(all, i + 1) =~= before + (seq![d@]
                        + displays_from(all, i + 1)));
                },
                None => {},
            }
        }
        i = i + 1;
    }
    assert(displays_from(all, i as int) =~= Seq::<DisplayView>::empty());
    assert(out@.map_values(|d: DisplayInfo| d@) + displays_from(all, i as int) =~= out@.map_values(|d: DisplayInfo| d@));
    out
}

} // verus!
