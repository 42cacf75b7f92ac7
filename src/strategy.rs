//! The four ways of shifting a display, each turned into the tool's arguments.

use vstd::prelude::*;
use crate::display::{DisplayInfo, DisplayView};
use crate::text::{int_text, nat_text, padded_text, push_int, push_nat, push_padded, push_str, string_from_chars};

verus! {

/// Extra width and height of the smooth panning region, against edge artefacts.
pub const SMOOTH_PANNING_MARGIN: u32 = 10;

/// How a shift is realised on the display.
#[derive(Debug, Clone, Copy, PartialEq, Eq, Structural)]
pub enum ShiftStrategy {
    TransformMatrix,
    PanningSmooth,
    PositionOffset,
    PanningBasic,
}

pub open spec fn abs_int(x: int) -> nat {
    if x < 0 {
        (-x) as nat
    } else {
        x as nat
    }
}

/// `|num| / den` in millionths, rounded to nearest, ties to even.
pub open spec fn rounded_millionths(num: int, den: int) -> nat {
    let m: int = (abs_int(num) * 1_000_000) as int;
    let q: int = m / den;
    let r: int = m % den;
    if 2 * r > den || (2 * r == den && q % 2 == 1) {
        (q + 1) as nat
    } else {
        q as nat
    }
}

/// `num / den` written with six decimals, as the transform matrix takes it.
pub open spec fn ratio_text(num: int, den: int) -> Seq<char> {
    let v = rounded_millionths(num, den);
    let sign = if num < 0 {
        seq!['-']
    } else {
        Seq::<char>::empty()
    };
    sign + nat_text(v / 1_000_000) + seq!['.'] + padded_text(v % 1_000_000, 6)
}

/// The identity matrix, row-major.
pub open spec fn identity_matrix_text() -> Seq<char> {
    "1,0,0,0,1,0,0,0,1"@
}

/// The translation matrix that moves the picture by `(dx, dy)` pixels on a
/// `width` x `height` display; the identity when nothing moves.
pub open spec fn transform_text(width: int, height: int, dx: int, dy: int) -> Seq<char> {
    if dx == 0 && dy == 0 {
        identity_matrix_text()
    } else {
        "1,0,"@ + ratio_text(dx, width) + ",0,1,"@ + ratio_text(dy, height) + ",0,0,1"@
    }
}

/// A panning region `margin` larger than the display, at offset `(dx, dy)`.
pub open spec fn panning_text(width: int, height: int, dx: int, dy: int, margin: int) -> Seq<char> {
    nat_text((width + margin) as nat) + seq!['x'] + nat_text((height + margin) as nat) + seq!['+']
        + int_text(dx) + seq!['+'] + int_text(dy)
}

/// The output position `(dx, dy)`: the second coordinate carries its own sign when negative.
pub open spec fn position_text(dx: int, dy: int) -> Seq<char> {
    if dy >= 0 {
        int_text(dx) + seq!['+'] + int_text(dy)
    } else {
        int_text(dx) + int_text(dy)
    }
}

/// The tool's option for each strategy.
pub open spec fn option_text(s: ShiftStrategy) -> Seq<char> {
    match s {
        ShiftStrategy::TransformMatrix => "--transform"@,
        ShiftStrategy::PanningSmooth => "--panning"@,
        ShiftStrategy::PositionOffset => "--pos"@,
        ShiftStrategy::PanningBasic => "--panning"@,
    }
}

/// The value given to that option for an offset of `(dx, dy)`.
pub open spec fn value_text(s: ShiftStrategy, d: DisplayView, dx: int, dy: int) -> Seq<char> {
    match s {
        ShiftStrategy::TransformMatrix => transform_text(d.width as int, d.height as int, dx, dy),
        ShiftStrategy::PanningSmooth => panning_text(d.width as int, d.height as int, dx, dy, 10),
        ShiftStrategy::PositionOffset => position_text(dx, dy),
        ShiftStrategy::PanningBasic => panning_text(d.width as int, d.height as int, dx, dy, 0),
    }
}

/// The full argument list of the tool for one shift.
pub open spec fn shift_args(s: ShiftStrategy, d: DisplayView, dx: int, dy: int) -> Seq<Seq<char>> {
    seq!["--output"@, d.name, option_text(s), value_text(s, d, dx, dy)]
}

fn push_ratio(v: &mut Vec<char>, num: i32, den: u32)
    requires
        den > 0,
    ensures
        final(v)@ == old(v)@ + ratio_text(num as int, den as int),
{
    let a: u64 = if num < 0 {
        (-(num as i64)) as u64
    } else {
        num as u64
    };
    let m: u64 = a * 1_000_000;
    let q: u64 = m / (den as u64);
    let r: u64 = m % (den as u64);
    let rounded: u64 = if 2 * r > den as u64 || (2 * r == den as u64 && q % 2 == 1) {
        q + 1
    } else {
        q
    };
    assert(rounded as nat == rounded_millionths(num as int, den as int));
    if num < 0 {
        v.push('-');
    }
    push_nat(v, rounded / 1_000_000);
    v.push('.');
    push_padded(v, rounded % 1_000_000, 6);
    assert(final(v)@ =~= old(v)@ + ratio_text(num as int, den as int));
}

/// The transform matrix that shifts `display` by `(dx, dy)` pixels.
pub fn transform_matrix(display: &DisplayInfo, dx: i32, dy: i32) -> (r: String)
    requires
        display.wf(),
    ensures
        r@ == transform_text(display.width as int, display.height as int, dx as int, dy as int),
{
    let mut v: Vec<char> = Vec::new();
    if dx == 0 && dy == 0 {
        push_str(&mut v, "1,0,0,0,1,0,0,0,1");
    } else {
        push_str(&mut v, "1,0,");
        push_ratio(&mut v, dx, display.width);
        push_str(&mut v, ",0,1,");
        push_ratio(&mut v, dy, display.height);
        push_str(&mut v, ",0,0,1");
    }
    assert(v@ =~= transform_text(display.width as int, display.height as int, dx as int, dy as int));
    string_from_chars(&v)
}

/// The panning region for a shift of `(dx, dy)`, `margin` pixels larger than the display.
pub fn panning_region(display: &DisplayInfo, dx: i32, dy: i32, margin: u32) -> (r: String)
    ensures
        r@ == panning_text(display.width as int, display.height as int, dx as int, dy as int, margin as int),
{
    let mut v: Vec<char> = Vec::new();
    push_nat(&mut v, display.width as u64 + margin as u64);
    v.push('x');
    push_nat(&mut v, display.height as u64 + margin as u64);
    v.push('+');
    push_int(&mut v, dx as i64);
    v.push('+');
    push_int(&mut v, dy as i64);
    assert(v@ =~= panning_text(display.width as int, display.height as int, dx as int, dy as int, margin as int));
    string_from_chars(&v)
}

/// The output position for a shift of `(dx, dy)`.
pub fn position_offset(dx: i32, dy: i32) -> (r: String)
    ensures
        r@ == position_text(dx as int, dy as int),
{
    let mut v: Vec<char> = Vec::new();
    push_int(&mut v, dx as i64);
    if dy >= 0 {
        v.push('+');
    }
    push_int(&mut v, dy as i64);
    assert(v@ =~= position_text(dx as int, dy as int));
    string_from_chars(&v)
}

impl ShiftStrategy {
    /// The strategy at a position of the selection list; an unknown one means the transform.
    pub fn from_index(i: u32) -> (r: ShiftStrategy)
        ensures
            r == (if i == 1 {
                ShiftStrategy::PanningSmooth
            } else if i == 2 {
                ShiftStrategy::PositionOffset
            } else if i == 3 {
                ShiftStrategy::PanningBasic
            } else {
                ShiftStrategy::TransformMatrix
            }),
    {
        if i == 1 {
            ShiftStrategy::PanningSmooth
        } else if i == 2 {
            ShiftStrategy::PositionOffset
        } else if i == 3 {
            ShiftStrategy::PanningBasic
        } else {
            ShiftStrategy::TransformMatrix
        }
    }

    /// The value of this strategy's option for a shift of `display` by `(dx, dy)`.
    pub fn value(&self, display: &DisplayInfo, dx: i32, dy: i32) -> (r: String)
        requires
            display.wf(),
        ensures
            r@ == value_text(*self, display@, dx as int, dy as int),
    {
        match self {
            ShiftStrategy::TransformMatrix => transform_matrix(display, dx, dy),
            ShiftStrategy::PanningSmooth => panning_region(display, dx, dy, SMOOTH_PANNING_MARGIN),
            ShiftStrategy::PositionOffset => position_offset(dx, dy),
            ShiftStrategy::PanningBasic => panning_region(display, dx, dy, 0),
        }
    }

    /// The tool's arguments that shift `display` by `(dx, dy)`.
    pub fn arguments(&self, display: &DisplayInfo, dx: i32, dy: i32) -> (r: Vec<String>)
        requires
            display.wf(),
        ensures
            r.deep_view() == shift_args(*self, display@, dx as int, dy as int),
    {
        let option = match self {
            ShiftStrategy::TransformMatrix => String::from_str("--transform"),
            ShiftStrategy::PanningSmooth => String::from_str("--panning"),
            ShiftStrategy::PositionOffset => String::from_str("--pos"),
            ShiftStrategy::PanningBasic => String::from_str("--panning"),
        };
        let mut r: Vec<String> = Vec::new();
        r.push(String::from_str("--output"));
        r.push(display.name.clone());
        r.push(option);
        r.push(self.value(display, dx, dy));
        assert(r.deep_view() =~= shift_args(*self, display@, dx as int, dy as int));
        r
    }
}

/// The transform ratio is `dx / width` to the nearest millionth: the text's value
/// differs from the exact ratio by at most half a millionth. With no offset at all the
/// matrix is the identity, whatever the display's size.
pub proof fn transform_ratio_rounding(num: int, den: int, width: int, height: int)
    requires
        den > 0,
    ensures
        2 * abs_int(rounded_millionths(num, den) * den - abs_int(num) * 1_000_000) <= den,
        transform_text(width, height, 0, 0) == "1,0,0,0,1,0,0,0,1"@,
{
    let m: int = (abs_int(num) * 1_000_000) as int;
    let q: int = m / den;
    let r: int = m % den;
    assert(m == q * den + r) by (nonlinear_arith)
        requires
            den > 0,
            q == m / den,
            r == m % den,
    ;
    assert(0 <= r < den);
    if 2 * r > den || (2 * r == den && q % 2 == 1) {
        assert((q + 1) * den - m == den - r) by (nonlinear_arith)
            requires
                m == q * den + r,
        ;
    } else {
        assert(q * den - m == -r);
    }
}

} // verus!
