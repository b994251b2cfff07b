use vstd::prelude::*;

verus! {

/// For a clockwise turn by a third: the cell of the original board that
/// lands on cell `i`.
pub open spec fn cw_source(i: int) -> int {
    if i == 0 { 14 }
    else if i == 1 { 9 }
    else if i == 2 { 13 }
    else if i == 3 { 5 }
    else if i == 4 { 8 }
    else if i == 5 { 12 }
    else if i == 6 { 2 }
    else if i == 7 { 4 }
    else if i == 8 { 7 }
    else if i == 9 { 11 }
    else if i == 10 { 0 }
    else if i == 11 { 1 }
    else if i == 12 { 3 }
    else if i == 13 { 6 }
    else { 10 }
}

/// For a counter-clockwise turn by a third: the cell of the original board
/// that lands on cell `i`.
pub open spec fn ccw_source(i: int) -> int {
    if i == 0 { 10 }
    else if i == 1 { 11 }
    else if i == 2 { 6 }
    else if i == 3 { 12 }
    else if i == 4 { 7 }
    else if i == 5 { 3 }
    else if i == 6 { 13 }
    else if i == 7 { 8 }
    else if i == 8 { 4 }
    else if i == 9 { 1 }
    else if i == 10 { 14 }
    else if i == 11 { 9 }
    else if i == 12 { 5 }
    else if i == 13 { 2 }
    else { 0 }
}

/// The cells `s` turned clockwise by a third.
pub open spec fn rotated_cw(s: Seq<bool>) -> Seq<bool> {
    Seq::new(15, |i: int| s[cw_source(i)])
}

/// The cells `s` turned counter-clockwise by a third.
pub open spec fn rotated_ccw(s: Seq<bool>) -> Seq<bool> {
    Seq::new(15, |i: int| s[ccw_source(i)])
}

/// One for a peg, zero for an empty hole.
pub open spec fn peg(b: bool) -> int {
    if b { 1 } else { 0 }
}

/// Pegs in the top third: cells 0 to 5.
pub open spec fn top_count(s: Seq<bool>) -> int {
    peg(s[0]) + peg(s[1]) + peg(s[2]) + peg(s[3]) + peg(s[4]) + peg(s[5])
}

/// Pegs in the lower-left third: cells 3, 6, 7, 10, 11 and 12.
pub open spec fn left_count(s: Seq<bool>) -> int {
    peg(s[3]) + peg(s[6]) + peg(s[7]) + peg(s[10]) + peg(s[11]) + peg(s[12])
}

/// Pegs in the lower-right third: cells 5, 8, 9, 12, 13 and 14.
pub open spec fn right_count(s: Seq<bool>) -> int {
    peg(s[5]) + peg(s[8]) + peg(s[9]) + peg(s[12]) + peg(s[13]) + peg(s[14])
}

/// All three thirds hold as many pegs.
pub open spec fn thirds_balanced(s: Seq<bool>) -> bool {
    top_count(s) == left_count(s) && left_count(s) == right_count(s)
}

/// One third holds strictly more pegs than each of the other two.
pub open spec fn has_unique_max(s: Seq<bool>) -> bool {
    let t1 = top_count(s);
    let t2 = left_count(s);
    let t3 = right_count(s);
    (t1 > t2 && t1 > t3) || (t2 > t1 && t2 > t3) || (t3 > t1 && t3 > t2)
}

/// The canonical orientation of `s`: unchanged when all thirds hold as many
/// pegs or the top third holds the most; turned counter-clockwise when the
/// lower-left third holds the most; turned clockwise otherwise.
pub open spec fn normalized(s: Seq<bool>) -> Seq<bool> {
    let t1 = top_count(s);
    let t2 = left_count(s);
    let t3 = right_count(s);
    if t1 == t2 && t2 == t3 {
        s
    } else if t1 > t2 && t1 > t3 {
        s
    } else if t2 > t1 && t2 > t3 {
        rotated_ccw(s)
    } else {
        rotated_cw(s)
    }
}

/// A configuration of the fifteen-hole triangular board.
///
/// Cells are numbered row by row, top to bottom and left to right:
///
/// ```text
///         0
///       1   2
///     3   4   5
///   6   7   8   9
/// 10  11  12  13  14
/// ```
///
/// `true` marks a peg, `false` an empty hole.
#[derive(Clone, Copy, Eq, PartialOrd, Ord, Debug)]
pub struct BoardState([bool; 15]);

impl View for BoardState {
    type V = Seq<bool>;

    closed spec fn view(&self) -> Seq<bool> {
        self.0@
    }
}

impl BoardState {
    /// Every board has exactly fifteen cells.
    pub broadcast proof fn lemma_view_len(b: BoardState)
        ensures
            #[trigger] b@.len() == 15,
    {
    }

    /// Wraps the given cells as a board, unchanged.
    pub fn new(state: [bool; 15]) -> (r: BoardState)
        ensures
            r@ == state@,
    {
        BoardState(state)
    }

    fn as_bit_slice(self) -> (r: [bool; 15])
        ensures
            r@ == self@,
    {
        self.0
    }

    /// Pegs in the top, lower-left and lower-right thirds.
    fn third_counts(self) -> (r: (u8, u8, u8))
        ensures
            r.0 as int == top_count(self@),
            r.1 as int == left_count(self@),
            r.2 as int == right_count(self@),
    {
        let data = self.as_bit_slice();
        let tri1 = count_six(data[0], data[1], data[2], data[3], data[4], data[5]);
        let tri2 = count_six(data[3], data[6], data[7], data[10], data[11], data[12]);
        let tri3 = count_six(data[5], data[8], data[9], data[12], data[13], data[14]);
        (tri1, tri2, tri3)
    }

    /// The board in its canonical orientation (see [`normalized`]).
    pub fn normalize_orientation(self) -> (r: BoardState)
        ensures
            r@ == normalized(self@),
    {
        let (tri1, tri2, tri3) = self.third_counts();

        if tri1 == tri2 && tri2 == tri3 {
            self
        } else if tri1 > tri2 && tri1 > tri3 {
            self
        } else if tri2 > tri1 && tri2 > tri3 {
            self.rotate_counter_clockwise()
        } else {
            self.rotate_clockwise()
        }
    }

    /// The board turned clockwise by a third.
    pub fn rotate_clockwise(self) -> (r: BoardState)
        ensures
            r@ == rotated_cw(self@),
    {
        let data = self.as_bit_slice();

        let r = BoardState(
            [
                data[14],
                data[9],
                data[13],
                data[5],
                data[8],
                data[12],
                data[2],
                data[4],
                data[7],
                data[11],
                data[0],
                data[1],
                data[3],
                data[6],
                data[10],
            ],
        );
        assert(r@ =~= rotated_cw(self@));
        r
    }

    /// The board turned counter-clockwise by a third.
    pub fn rotate_counter_clockwise(self) -> (r: BoardState)
        ensures
            r@ == rotated_ccw(self@),
    {
        let data = self.as_bit_slice();

        let r = BoardState(
            [
                data[10],
                data[11],
                data[6],
                data[12],
                data[7],
                data[3],
                data[13],
                data[8],
                data[4],
                data[1],
                data[14],
                data[9],
                data[5],
                data[2],
                data[0],
            ],
        );
        assert(r@ =~= rotated_ccw(self@));
        r
    }

    /// The fifteen cells of the board, in index order.
    pub fn cells(self) -> (r: [bool; 15])
        ensures
            r@ == self@,
    {
        self.as_bit_slice()
    }
}

fn peg_value(b: bool) -> (r: u8)
    ensures
        r as int == peg(b),
{
    if b {
        1
    } else {
        0
    }
}

/// Pegs among six cells.
fn count_six(a: bool, b: bool, c: bool, d: bool, e: bool, f: bool) -> (r: u8)
    ensures
        r as int == peg(a) + peg(b) + peg(c) + peg(d) + peg(e) + peg(f),
{
    peg_value(a) + peg_value(b) + peg_value(c) + peg_value(d) + peg_value(e) + peg_value(f)
}

impl PartialEq for BoardState {
    /// Two boards are equal when every cell agrees.
    fn eq(&self, other: &BoardState) -> (r: bool)
        ensures
            r == (self@ == other@),
    {
        let mut i: usize = 0;
        while i < 15
            invariant
                0 <= i <= 15,
                forall|j: int| 0 <= j < i ==> self@[j] == other@[j],
            decreases 15 - i,
        {
            if self.0[i] != other.0[i] {
                return false;
            }
            i = i + 1;
        }
        assert(self@ =~= other@);
        true
    }
}

impl vstd::std_specs::cmp::PartialEqSpecImpl for BoardState {
    open spec fn obeys_eq_spec() -> bool {
        true
    }

    open spec fn eq_spec(&self, other: &BoardState) -> bool {
        self@ == other@
    }
}

/// Reading the cells back from a board built from `cells` gives `cells`.
pub proof fn lemma_construction_identity(cells: [bool; 15], b: BoardState, back: [bool; 15])
    requires
        b@ == cells@,
        back@ == b@,
    ensures
        back == cells,
{
    assert(back@ =~= cells@);
}

/// Turning the board clockwise or counter-clockwise three times gives the
/// board back.
pub proof fn lemma_rotation_order_three(b: BoardState)
    ensures
        rotated_cw(rotated_cw(rotated_cw(b@))) == b@,
        rotated_ccw(rotated_ccw(rotated_ccw(b@))) == b@,
{
    assert(rotated_cw(rotated_cw(rotated_cw(b@))) =~= b@);
    assert(rotated_ccw(rotated_ccw(rotated_ccw(b@))) =~= b@);
}

/// A counter-clockwise turn undoes a clockwise turn and the other way round;
/// two turns one way are one turn the other way.
pub proof fn lemma_rotation_inverse(b: BoardState)
    ensures
        rotated_cw(rotated_ccw(b@)) == b@,
        rotated_ccw(rotated_cw(b@)) == b@,
        rotated_cw(rotated_cw(b@)) == rotated_ccw(b@),
        rotated_ccw(rotated_ccw(b@)) == rotated_cw(b@),
{
    assert(rotated_cw(rotated_ccw(b@)) =~= b@);
    assert(rotated_ccw(rotated_cw(b@)) =~= b@);
    assert(rotated_cw(rotated_cw(b@)) =~= rotated_ccw(b@));
    assert(rotated_ccw(rotated_ccw(b@)) =~= rotated_cw(b@));
}

/// A clockwise turn moves the lower-right count to the top, the top count to
/// the lower left and the lower-left count to the lower right; a
/// counter-clockwise turn moves them the other way.
proof fn lemma_counts_rotate(s: Seq<bool>)
    requires
        s.len() == 15,
    ensures
        top_count(rotated_cw(s)) == right_count(s),
        left_count(rotated_cw(s)) == top_count(s),
        right_count(rotated_cw(s)) == left_count(s),
        top_count(rotated_ccw(s)) == left_count(s),
        left_count(rotated_ccw(s)) == right_count(s),
        right_count(rotated_ccw(s)) == top_count(s),
{
}

/// Normalizing gives the same board whichever way the board was first turned,
/// for a board on which one third holds strictly more pegs than each of the
/// other two, or which looks the same after a turn.
pub proof fn lemma_normalize_rotation_invariant(b: BoardState)
    requires
        has_unique_max(b@) || rotated_cw(b@) == b@,
    ensures
        normalized(b@) == normalized(rotated_cw(b@)),
        normalized(b@) == normalized(rotated_ccw(b@)),
{
    let s = b@;
    lemma_rotation_inverse(b);
    lemma_counts_rotate(s);
    if rotated_cw(s) == s {
        assert(rotated_ccw(s) == s);
    }
}

/// Normalizing a normalized board changes nothing, for a board on which one
/// third holds strictly more pegs than each of the other two, or all three
/// hold as many.
pub proof fn lemma_normalize_idempotent(b: BoardState)
    requires
        has_unique_max(b@) || thirds_balanced(b@),
    ensures
        normalized(normalized(b@)) == normalized(b@),
{
    let s = b@;
    lemma_rotation_inverse(b);
    lemma_counts_rotate(s);
}

} // verus!
