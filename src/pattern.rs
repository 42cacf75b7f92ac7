//! The ring of nine offsets that pattern mode walks through.

use vstd::prelude::*;

verus! {

/// Number of offsets in one turn of the pattern.
pub const PATTERN_LEN: usize = 9;

/// Centre, then the eight neighbours at distance `a`, clockwise from the right.
pub open spec fn pattern_offsets(a: int) -> Seq<(int, int)> {
    seq![
        (0, 0),
        (a, 0),
        (a, a),
        (0, a),
        (-a, a),
        (-a, 0),
        (-a, -a),
        (0, -a),
        (a, -a),
    ]
}

/// A cyclic cursor over the pattern's offsets.
#[derive(Debug, Clone)]
pub struct ShiftPattern {
    positions: Vec<(i32, i32)>,
    current_index: usize,
}

/// The offsets as integers, and the cursor.
pub ghost struct PatternView {
    pub positions: Seq<(int, int)>,
    pub cursor: nat,
}

impl View for ShiftPattern {
    type V = PatternView;

    closed spec fn view(&self) -> PatternView {
        PatternView {
            positions: self.positions@.map_values(|p: (i32, i32)| (p.0 as int, p.1 as int)),
            cursor: self.current_index as nat,
        }
    }
}

pub open spec fn abs(x: int) -> int {
    if x < 0 {
        -x
    } else {
        x
    }
}

/// The pattern after one call of `next`.
pub open spec fn advance(p: PatternView) -> PatternView {
    PatternView { positions: p.positions, cursor: (p.cursor + 1) % 9 }
}

/// The pattern after `n` calls of `next`.
pub open spec fn advance_n(p: PatternView, n: nat) -> PatternView
    decreases n,
{
    if n == 0 {
        p
    } else {
        advance(advance_n(p, (n - 1) as nat))
    }
}

impl ShiftPattern {
    pub closed spec fn wf(&self) -> bool {
        self.positions@.len() == 9 && self.current_index < 9
    }

    /// A fresh pattern of magnitude `shift_amount`, with the cursor on the centre.
    pub fn new(shift_amount: i32) -> (r: ShiftPattern)
        requires
            shift_amount > i32::MIN,
        ensures
            r.wf(),
            r@.positions == pattern_offsets(shift_amount as int),
            r@.cursor == 0,
    {
        let a = shift_amount;
        let n = -shift_amount;
        let positions = vec![
            (0, 0),
            (a, 0),
            (a, a),
            (0, a),
            (n, a),
            (n, 0),
            (n, n),
            (0, n),
            (a, n),
        ];
        let r = ShiftPattern { positions, current_index: 0 };
        assert(r@.positions =~= pattern_offsets(a as int));
        r
    }

    /// Returns the offset under the cursor, then moves the cursor on, wrapping after the last.
    pub fn next(&mut self) -> (r: (i32, i32))
        requires
            old(self).wf(),
        ensures
            final(self).wf(),
            (r.0 as int, r.1 as int) == old(self)@.positions[old(self)@.cursor as int],
            final(self)@ == advance(old(self)@),
    {
        let pos = self.positions[self.current_index];
        self.current_index = (self.current_index + 1) % self.positions.len();
        pos
    }

    /// Moves the cursor back to the centre; the offsets stay.
    pub fn reset(&mut self)
        requires
            old(self).wf(),
        ensures
            final(self).wf(),
            final(self)@.positions == old(self)@.positions,
            final(self)@.cursor == 0,
    {
        self.current_index = 0;
    }

    /// The cursor's position in the ring.
    pub fn cursor(&self) -> (r: usize)
        ensures
            r as nat == self@.cursor,
    {
        self.current_index
    }
}

/// Walking a fresh pattern: the `k`-th call of `next` (from zero) returns offset `k mod 9`,
/// so nine calls return the nine offsets in order and the tenth repeats the first.
/// For a non-zero magnitude the nine offsets are distinct; the first is the centre,
/// the other eight lie on the ring at distance `a` around it, and each step round the
/// ring (the last back to the first) moves to a neighbouring offset.
pub proof fn pattern_walk(a: int, k: nat)
    ensures
        advance_n(PatternView { positions: pattern_offsets(a), cursor: 0 }, k).cursor == k % 9,
        advance_n(PatternView { positions: pattern_offsets(a), cursor: 0 }, k).positions
            == pattern_offsets(a),
        pattern_offsets(a)[0] == (0int, 0int),
        a != 0 ==> forall|i: int, j: int|
            0 <= i < 9 && 0 <= j < 9 && i != j ==> #[trigger] pattern_offsets(a)[i]
                != #[trigger] pattern_offsets(a)[j],
        forall|i: int|
            1 <= i < 9 ==> {
                let p = #[trigger] pattern_offsets(a)[i];
                abs(p.0) <= abs(a) && abs(p.1) <= abs(a) && (abs(p.0) == abs(a) || abs(p.1) == abs(
                    a,
                ))
            },
        forall|i: int|
            1 <= i < 9 ==> {
                let p = #[trigger] pattern_offsets(a)[i];
                let q = pattern_offsets(a)[if i == 8 { 1 } else { i + 1 }];
                abs(p.0 - q.0) <= abs(a) && abs(p.1 - q.1) <= abs(a)
            },
    decreases k,
{
    let p0 = PatternView { positions: pattern_offsets(a), cursor: 0 };
    if k > 0 {
        pattern_walk(a, (k - 1) as nat);
        assert(advance_n(p0, k) == advance(advance_n(p0, (k - 1) as nat)));
        assert(((k - 1) as nat % 9 + 1) % 9 == k % 9);
    }
}

} // verus!
