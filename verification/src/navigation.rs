//! Rectangle selection over the visual key grid.

use vstd::prelude::*;

use crate::models::Position;

verus! {

/// `p` lies in the rectangle spanned by the corners `a` and `b`.
pub open spec fn in_rectangle(p: Position, a: Position, b: Position) -> bool {
    let (r0, r1) = if a.row <= b.row { (a.row, b.row) } else { (b.row, a.row) };
    let (c0, c1) = if a.col <= b.col { (a.col, b.col) } else { (b.col, a.col) };
    r0 <= p.row <= r1 && c0 <= p.col <= c1
}

/// `p` comes before `q` in row-major order.
pub open spec fn row_major_before(p: Position, q: Position) -> bool {
    p.row < q.row || (p.row == q.row && p.col < q.col)
}

/// `sel` is the rectangle selection between `a` and `b`: every valid
/// position inside the rectangle, each once, in row-major order.
pub open spec fn is_rectangle_selection(sel: Seq<Position>, a: Position, b: Position, valid: Seq<
    Position,
>) -> bool {
    &&& forall|i: int| 0 <= i < sel.len() ==> in_rectangle(#[trigger] sel[i], a, b) && valid.contains(
        sel[i],
    )
    &&& forall|p: Position| in_rectangle(p, a, b) && valid.contains(p) ==> #[trigger] sel.contains(p)
    &&& forall|i: int, j: int| 0 <= i < j < sel.len() ==> row_major_before(#[trigger] sel[i], #[trigger] sel[j])
}

/// Whether `p` is one of `valid`.
fn is_valid_position(valid: &Vec<Position>, p: Position) -> (b: bool)
    ensures
        b == valid@.contains(p),
{
    let mut i: usize = 0;
    while i < valid.len()
        invariant
            i <= valid@.len(),
            forall|j: int| 0 <= j < i ==> valid@[j] != p,
        decreases valid@.len() - i,
    {
        let q = valid[i];
        if q.row == p.row && q.col == p.col {
            assert(valid@[i as int] == p);
            return true;
        }
        i = i + 1;
    }
    false
}

/// All positions of the keyboard inside the rectangle spanned by `start`
/// and `end`, in row-major order. Only positions in `valid` (those holding a
/// physical key) are included.
pub fn calculate_rectangle_selection(start: Position, end: Position, valid: &Vec<Position>) -> (sel:
    Vec<Position>)
    ensures
        is_rectangle_selection(sel@, start, end, valid@),
{
    let min_row = if start.row <= end.row { start.row } else { end.row };
    let max_row = if start.row <= end.row { end.row } else { start.row };
    let min_col = if start.col <= end.col { start.col } else { end.col };
    let max_col = if start.col <= end.col { end.col } else { start.col };
    let mut selected: Vec<Position> = Vec::new();
    let mut row: u16 = min_row as u16;
    while row <= max_row as u16
        invariant
            min_row <= row <= max_row as u16 + 1,
            min_row as int == (if start.row <= end.row { start.row } else { end.row }),
            max_row as int == (if start.row <= end.row { end.row } else { start.row }),
            min_col as int == (if start.col <= end.col { start.col } else { end.col }),
            max_col as int == (if start.col <= end.col { end.col } else { start.col }),
            forall|i: int| 0 <= i < selected@.len() ==> in_rectangle(#[trigger] selected@[i], start, end)
                && valid@.contains(selected@[i]) && selected@[i].row < row,
            forall|p: Position|
                in_rectangle(p, start, end) && valid@.contains(p) && p.row < row ==> #[trigger] selected@.contains(p),
            forall|i: int, j: int|
                0 <= i < j < selected@.len() ==> row_major_before(#[trigger] selected@[i], #[trigger] selected@[j]),
        decreases max_row as u16 + 1 - row,
    {
        let mut col: u16 = min_col as u16;
        while col <= max_col as u16
            invariant
                min_row <= row <= max_row,
                min_col <= col <= max_col as u16 + 1,
                min_row as int == (if start.row <= end.row { start.row } else { end.row }),
                max_row as int == (if start.row <= end.row { end.row } else { start.row }),
                min_col as int == (if start.col <= end.col { start.col } else { end.col }),
                max_col as int == (if start.col <= end.col { end.col } else { start.col }),
                forall|i: int| 0 <= i < selected@.len() ==> in_rectangle(#[trigger] selected@[i], start, end)
                    && valid@.contains(selected@[i]) && (selected@[i].row < row || (
                    selected@[i].row == row && selected@[i].col < col)),
                forall|p: Position|
                    in_rectangle(p, start, end) && valid@.contains(p) && (p.row < row || (p.row == row
                        && p.col < col)) ==> #[trigger] selected@.contains(p),
                forall|i: int, j: int|
                    0 <= i < j < selected@.len() ==> row_major_before(#[trigger] selected@[i], #[trigger] selected@[j]),
            decreases max_col as u16 + 1 - col,
        {
            let pos = Position::new(row as u8, col as u8);
            if is_valid_position(valid, pos) {
                let ghost prev = selected@;
                selected.push(pos);
                assert forall|p: Position|
                    in_rectangle(p, start, end) && valid@.contains(p) && (p.row < row || (p.row == row
                        && p.col < col + 1)) implies #[trigger] selected@.contains(p) by {
                    if p.row == row && p.col == col {
                        assert(selected@[prev.len() as int] == p);
                    } else {
                        assert(prev.contains(p));
                        let k = choose|k: int| 0 <= k < prev.len() && prev[k] == p;
                        assert(selected@[k] == p);
                    }
                }
            } else {
                assert forall|p: Position|
                    in_rectangle(p, start, end) && valid@.contains(p) && (p.row < row || (p.row == row
                        && p.col < col + 1)) implies #[trigger] selected@.contains(p) by {
                    if p.row == row && p.col == col {
                        assert(p == pos);
                    }
                }
            }
            col = col + 1;
        }
        row = row + 1;
    }
    selected
}

/// Two sequences strictly ordered in row-major order with the same members
/// are equal.
proof fn lemma_sorted_same_members(s1: Seq<Position>, s2: Seq<Position>)
    requires
        forall|i: int, j: int| 0 <= i < j < s1.len() ==> row_major_before(#[trigger] s1[i], #[trigger] s1[j]),
        forall|i: int, j: int| 0 <= i < j < s2.len() ==> row_major_before(#[trigger] s2[i], #[trigger] s2[j]),
        forall|p: Position| s1.contains(p) <==> s2.contains(p),
    ensures
        s1 == s2,
    decreases s1.len(),
{
    if s1.len() == 0 {
        if s2.len() > 0 {
            assert(s2.contains(s2[0]));
        }
        assert(s1 =~= s2);
    } else {
        assert(s1.contains(s1[0]));
        assert(s2.len() > 0);
        assert(s2.contains(s2[0]));
        let j = choose|j: int| 0 <= j < s2.len() && s2[j] == s1[0];
        let i = choose|i: int| 0 <= i < s1.len() && s1[i] == s2[0];
        if s1[0] != s2[0] {
            assert(j > 0 && i > 0);
            assert(row_major_before(s2[0], s2[j]));
            assert(row_major_before(s1[0], s1[i]));
        }
        let t1 = s1.drop_first();
        let t2 = s2.drop_first();
        assert forall|p: Position| t1.contains(p) <==> t2.contains(p) by {
            if t1.contains(p) {
                let k = choose|k: int| 0 <= k < t1.len() && t1[k] == p;
                assert(s1[k + 1] == p);
                assert(row_major_before(s1[0], s1[k + 1]));
                assert(s2.contains(p));
                let m = choose|m: int| 0 <= m < s2.len() && s2[m] == p;
                assert(m != 0);
                assert(t2[m - 1] == p);
            }
            if t2.contains(p) {
                let k = choose|k: int| 0 <= k < t2.len() && t2[k] == p;
                assert(s2[k + 1] == p);
                assert(row_major_before(s2[0], s2[k + 1]));
                assert(s1.contains(p));
                let m = choose|m: int| 0 <= m < s1.len() && s1[m] == p;
                assert(m != 0);
                assert(t1[m - 1] == p);
            }
        }
        assert forall|a: int, b: int| 0 <= a < b < t1.len() implies row_major_before(#[trigger] t1[a], #[trigger] t1[b]) by {
            assert(row_major_before(s1[a + 1], s1[b + 1]));
        }
        assert forall|a: int, b: int| 0 <= a < b < t2.len() implies row_major_before(#[trigger] t2[a], #[trigger] t2[b]) by {
            assert(row_major_before(s2[a + 1], s2[b + 1]));
        }
        lemma_sorted_same_members(t1, t2);
        assert(s1 =~= s2) by {
            assert forall|k: int| 0 <= k < s1.len() implies s1[k] == s2[k] by {
                if k > 0 {
                    assert(s1[k] == t1[k - 1]);
                    assert(s2[k] == t2[k - 1]);
                }
            }
        }
    }
}

/// The rectangle selection is fully determined by its corners and the valid
/// positions, and does not depend on which corner came first.
pub proof fn law_rectangle_selection_unique(
    s1: Seq<Position>,
    s2: Seq<Position>,
    a: Position,
    b: Position,
    valid: Seq<Position>,
)
    requires
        is_rectangle_selection(s1, a, b, valid),
        is_rectangle_selection(s2, a, b, valid) || is_rectangle_selection(s2, b, a, valid),
    ensures
        s1 == s2,
{
    assert forall|p: Position| s1.contains(p) <==> s2.contains(p) by {
        if s1.contains(p) {
            let k = choose|k: int| 0 <= k < s1.len() && s1[k] == p;
            assert(in_rectangle(s1[k], a, b) && valid.contains(s1[k]));
        }
        if s2.contains(p) {
            let k = choose|k: int| 0 <= k < s2.len() && s2[k] == p;
            assert(in_rectangle(s2[k], a, b) || in_rectangle(s2[k], b, a));
            assert(valid.contains(s2[k]));
        }
    }
    lemma_sorted_same_members(s1, s2);
}

} // verus!
