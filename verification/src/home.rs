//! The dashboard's home grid: hosts are shown in groups, each group laid out
//! in rows of a fixed number of columns, and the arrow keys move the
//! selection between the cards.

use vstd::prelude::*;

verus! {

/// One group of host cards, by index into the host list.
#[derive(Clone, Debug)]
pub struct HostGroupView {
    pub name: String,
    pub host_indices: Vec<usize>,
    pub ungrouped: bool,
}

/// An arrow-key movement.
#[derive(Clone, Copy, Debug, PartialEq, Eq, Structural)]
pub enum MoveDirection {
    Left,
    Right,
    Up,
    Down,
}

/// The number of cards in each group.
pub open spec fn sizes_of(groups: Seq<HostGroupView>) -> Seq<int> {
    groups.map_values(|g: HostGroupView| g.host_indices@.len() as int)
}

/// The sum of `s`.
pub open spec fn total(s: Seq<int>) -> int
    decreases s.len(),
{
    if s.len() == 0 {
        0
    } else {
        total(s.drop_last()) + s.last()
    }
}

/// The visible index of the first card of group `g`.
pub open spec fn offset(s: Seq<int>, g: int) -> int {
    total(s.subrange(0, g))
}

/// The first group, from `g` on, whose cards reach past visible index `v`.
pub open spec fn group_from(s: Seq<int>, v: int, g: int) -> int
    decreases s.len() - g,
{
    if g >= s.len() {
        g
    } else if v < offset(s, g + 1) {
        g
    } else {
        group_from(s, v, g + 1)
    }
}

/// The group that holds the card with visible index `v`.
pub open spec fn group_of(s: Seq<int>, v: int) -> int {
    group_from(s, v, 0)
}

/// The first group after `g` that has cards.
pub open spec fn next_nonempty(s: Seq<int>, g: int) -> Option<int>
    decreases s.len() - g,
{
    if g + 1 >= s.len() {
        None
    } else if s[g + 1] > 0 {
        Some(g + 1)
    } else {
        next_nonempty(s, g + 1)
    }
}

/// The last group before `g` that has cards.
pub open spec fn prev_nonempty(s: Seq<int>, g: int) -> Option<int>
    decreases g,
{
    if g <= 0 {
        None
    } else if s[g - 1] > 0 {
        Some(g - 1)
    } else {
        prev_nonempty(s, g - 1)
    }
}

/// The smaller of two integers.
pub open spec fn min_int(a: int, b: int) -> int {
    if a <= b {
        a
    } else {
        b
    }
}

/// The card of row `r` of group `g` whose column is nearest to `col`.
pub open spec fn cell(s: Seq<int>, c: int, g: int, r: int, col: int) -> int {
    offset(s, g) + r * c + min_int(col, s[g] - r * c - 1)
}

/// Where an arrow key takes the selection, with `c` columns per row.
///
/// The selection is first clamped to the last card. Left and Right move
/// within the card's row and stop at its ends. Down goes to the next row of
/// the group, or to the first row of the next group that has cards; Up to the
/// previous row, or to the last row of the previous group that has cards. In
/// the row it reaches, the selection keeps its column, or takes the row's
/// last card when the row is shorter. With no row to go to it stays.
pub open spec fn move_target(s: Seq<int>, c: int, selected: int, d: MoveDirection) -> int {
    let n = total(s);
    if n == 0 {
        0
    } else {
        let v = min_int(selected, n - 1);
        let g = group_of(s, v);
        let k = v - offset(s, g);
        let r = k / c;
        let col = k % c;
        match d {
            MoveDirection::Left => if col > 0 {
                v - 1
            } else {
                v
            },
            MoveDirection::Right => if col + 1 < c && k + 1 < s[g] {
                v + 1
            } else {
                v
            },
            MoveDirection::Down => if (r + 1) * c < s[g] {
                cell(s, c, g, r + 1, col)
            } else {
                match next_nonempty(s, g) {
                    Some(g2) => cell(s, c, g2, 0, col),
                    None => v,
                }
            },
            MoveDirection::Up => if r > 0 {
                cell(s, c, g, r - 1, col)
            } else {
                match prev_nonempty(s, g) {
                    Some(g2) => cell(s, c, g2, (s[g2] - 1) / c, col),
                    None => v,
                }
            },
        }
    }
}

proof fn lemma_offset_step(s: Seq<int>, g: int)
    requires
        0 <= g < s.len(),
    ensures
        offset(s, g + 1) == offset(s, g) + s[g],
{
    assert(s.subrange(0, g + 1).drop_last() =~= s.subrange(0, g));
}

proof fn lemma_offset_all(s: Seq<int>)
    ensures
        offset(s, s.len() as int) == total(s),
{
    assert(s.subrange(0, s.len() as int) =~= s);
}

proof fn lemma_sizes_nonneg(s: Seq<int>, g: int)
    requires
        forall|i: int| 0 <= i < s.len() ==> s[i] >= 0,
        0 <= g <= s.len(),
    ensures
        offset(s, g) >= 0,
    decreases g,
{
    if g > 0 {
        lemma_sizes_nonneg(s, g - 1);
        lemma_offset_step(s, g - 1);
    }
}

proof fn lemma_offset_monotone(s: Seq<int>, a: int, b: int)
    requires
        forall|i: int| 0 <= i < s.len() ==> s[i] >= 0,
        0 <= a <= b <= s.len(),
    ensures
        offset(s, a) <= offset(s, b),
    decreases b - a,
{
    if a < b {
        lemma_offset_monotone(s, a, b - 1);
        lemma_offset_step(s, b - 1);
    }
}

proof fn lemma_div_mod(k: int, c: int)
    by (nonlinear_arith)
    requires
        0 <= k,
        1 <= c,
    ensures
        k == (k / c) * c + k % c,
        0 <= k % c < c,
        0 <= k / c,
        (k / c) * c <= k,
{
}

proof fn lemma_mul_le(a: int, b: int, c: int)
    by (nonlinear_arith)
    requires
        0 <= a <= b,
        0 <= c,
    ensures
        a * c <= b * c,
{
}

proof fn lemma_row_bound(k: int, c: int, n: int)
    by (nonlinear_arith)
    requires
        0 <= k < n,
        1 <= c,
    ensures
        (k / c) * c <= k,
        0 <= (n - 1) / c,
        ((n - 1) / c) * c <= n - 1,
{
}

proof fn lemma_succ_mul(r: int, c: int)
    by (nonlinear_arith)
    ensures
        (r + 1) * c == r * c + c,
{
}

/// The number of cards in group `g`.
fn group_len(groups: &[HostGroupView], g: usize) -> (r: usize)
    requires
        g < groups@.len(),
    ensures
        r as int == sizes_of(groups@)[g as int],
{
    groups[g].host_indices.len()
}

/// The card in row `r` of group `g` nearest to column `col`.
fn cell_index(off: usize, size: usize, c: usize, r: usize, col: usize) -> (v: usize)
    requires
        1 <= c,
        r * c < size,
        col < c,
        off + size <= usize::MAX,
    ensures
        v == off + r * c + min_int(col as int, size - r * c - 1),
        v < off + size,
{
    let base = r * c;
    let last = size - base - 1;
    let pick = if col <= last { col } else { last };
    off + base + pick
}

/// Moves the home-grid selection one step in `direction`.
///
/// `columns` is the number of cards per row (at least one is used).
pub fn move_selection(
    selected: usize,
    groups: &[HostGroupView],
    columns: usize,
    direction: MoveDirection,
) -> (r: usize)
    requires
        total(sizes_of(groups@)) <= usize::MAX,
    ensures
        r == move_target(
            sizes_of(groups@),
            if columns == 0 { 1 } else { columns as int },
            selected as int,
            direction,
        ),
        total(sizes_of(groups@)) > 0 ==> r < total(sizes_of(groups@)),
{
    let ghost s = sizes_of(groups@);
    let c: usize = if columns == 0 { 1 } else { columns };
    let len = groups.len();
    assert forall|i: int| 0 <= i < s.len() implies s[i] >= 0 by {
    }
    // The number of cards.
    let mut n: usize = 0;
    let mut i: usize = 0;
    proof {
        lemma_offset_all(s);
        lemma_offset_monotone(s, 0, s.len() as int);
    }
    while i < len
        invariant
            len == groups@.len(),
            s == sizes_of(groups@),
            forall|j: int| 0 <= j < s.len() ==> s[j] >= 0,
            total(s) <= usize::MAX,
            i <= len,
            n as int == offset(s, i as int),
        decreases len - i,
    {
        proof {
            lemma_offset_step(s, i as int);
            lemma_offset_monotone(s, i as int + 1, s.len() as int);
            lemma_offset_all(s);
        }
        n = n + group_len(groups, i);
        i = i + 1;
    }
    proof {
        lemma_offset_all(s);
    }
    if n == 0 {
        return 0;
    }
    let v: usize = if selected < n { selected } else { n - 1 };
    // The group holding card `v`, and the index of its first card.
    let mut g: usize = 0;
    let mut off: usize = 0;
    proof {
        assert(s.subrange(0, 0) =~= Seq::<int>::empty());
    }
    loop
        invariant
            len == groups@.len(),
            s == sizes_of(groups@),
            forall|j: int| 0 <= j < s.len() ==> s[j] >= 0,
            total(s) == n,
            v < n,
            g <= len,
            off as int == offset(s, g as int),
            v >= off,
            group_from(s, v as int, 0) == group_from(s, v as int, g as int),
        ensures
            g < len,
            v < off + s[g as int],
            off as int == offset(s, g as int),
            group_from(s, v as int, 0) == group_from(s, v as int, g as int),
        decreases len - g,
    {
        proof {
            if g >= len {
                lemma_offset_all(s);
            }
            lemma_offset_step(s, g as int);
            lemma_offset_monotone(s, g as int + 1, s.len() as int);
            lemma_offset_all(s);
        }
        let sz = group_len(groups, g);
        if v < off + sz {
            break;
        }
        off = off + sz;
        g = g + 1;
    }
    proof {
        lemma_offset_step(s, g as int);
        assert(group_from(s, v as int, g as int) == g);
        lemma_offset_monotone(s, g as int + 1, s.len() as int);
        lemma_offset_all(s);
    }
    let size = group_len(groups, g);
    let k = v - off;
    let row = k / c;
    let col = k % c;
    proof {
        lemma_div_mod(k as int, c as int);
        assert(group_of(s, v as int) == g as int);
        assert(v as int == min_int(selected as int, n - 1));
    }
    match direction {
        MoveDirection::Left => {
            if col > 0 {
                v - 1
            } else {
                v
            }
        },
        MoveDirection::Right => {
            if col + 1 < c && k + 1 < size {
                v + 1
            } else {
                v
            }
        },
        MoveDirection::Down => {
            let base = row * c;
            if c < size - base {
                proof {
                    lemma_mul_le(row as int, row as int + 1, c as int);
                    lemma_succ_mul(row as int, c as int);
                }
                let r1 = cell_index(off, size, c, row + 1, col);
                assert(r1 == move_target(s, c as int, selected as int, direction));
                r1
            } else {
                proof {
                    lemma_succ_mul(row as int, c as int);
                }
                // The next group that has cards.
                let mut g2: usize = g + 1;
                let mut off2: usize = off + size;
                proof {
                    lemma_offset_step(s, g as int);
                }
                while g2 < len && group_len(groups, g2) == 0
                    invariant
                        len == groups@.len(),
                        s == sizes_of(groups@),
                        forall|j: int| 0 <= j < s.len() ==> s[j] >= 0,
                        total(s) == n,
                        g < g2 <= len,
                        off2 as int == offset(s, g2 as int),
                        next_nonempty(s, g as int) == next_nonempty(s, g2 as int - 1),
                    decreases len - g2,
                {
                    proof {
                        lemma_offset_step(s, g2 as int);
                    }
                    off2 = off2 + group_len(groups, g2);
                    g2 = g2 + 1;
                }
                if g2 < len {
                    let size2 = group_len(groups, g2);
                    proof {
                        lemma_offset_step(s, g2 as int);
                        lemma_offset_monotone(s, g2 as int + 1, s.len() as int);
                        lemma_offset_all(s);
                    }
                    let r2 = cell_index(off2, size2, c, 0, col);
                    assert(r2 == move_target(s, c as int, selected as int, direction));
                    r2
                } else {
                    assert(v == move_target(s, c as int, selected as int, direction));
                    v
                }
            }
        },
        MoveDirection::Up => {
            if row > 0 {
                proof {
                    lemma_mul_le(row as int - 1, row as int, c as int);
                }
                cell_index(off, size, c, row - 1, col)
            } else {
                // The previous group that has cards.
                let mut g2: usize = g;
                let mut off2: usize = off;
                while g2 > 0 && group_len(groups, g2 - 1) == 0
                    invariant
                        len == groups@.len(),
                        s == sizes_of(groups@),
                        forall|j: int| 0 <= j < s.len() ==> s[j] >= 0,
                        total(s) == n,
                        g2 <= g < len,
                        off2 as int == offset(s, g2 as int),
                        prev_nonempty(s, g as int) == prev_nonempty(s, g2 as int),
                    decreases g2,
                {
                    proof {
                        lemma_offset_step(s, g2 as int - 1);
                    }
                    g2 = g2 - 1;
                }
                if g2 > 0 {
                    let g3 = g2 - 1;
                    let size3 = group_len(groups, g3);
                    proof {
                        lemma_offset_step(s, g3 as int);
                        lemma_offset_monotone(s, g3 as int + 1, s.len() as int);
                        lemma_offset_all(s);
                        lemma_row_bound(0, c as int, size3 as int);
                        lemma_sizes_nonneg(s, g3 as int);
                    }
                    let off3 = off2 - size3;
                    let last_row = (size3 - 1) / c;
                    cell_index(off3, size3, c, last_row, col)
                } else {
                    v
                }
            }
        },
    }
}

proof fn lemma_group_from_finds(s: Seq<int>, v: int, g: int, h: int)
    requires
        forall|i: int| 0 <= i < s.len() ==> s[i] >= 0,
        0 <= h <= g < s.len(),
        offset(s, g) <= v < offset(s, g + 1),
    ensures
        group_from(s, v, h) == g,
    decreases g - h,
{
    if h < g {
        lemma_offset_monotone(s, h + 1, g);
        lemma_group_from_finds(s, v, g, h + 1);
    }
}

proof fn lemma_prev_finds(s: Seq<int>, g2: int, h: int)
    requires
        0 <= g2 < h <= s.len(),
        s[g2] > 0,
        forall|j: int| g2 < j < h ==> s[j] == 0,
    ensures
        prev_nonempty(s, h) == Some(g2),
    decreases h,
{
    if h - 1 > g2 {
        lemma_prev_finds(s, g2, h - 1);
    }
}

proof fn lemma_prev_none(s: Seq<int>, h: int)
    requires
        0 <= h <= s.len(),
        forall|j: int| 0 <= j < h ==> s[j] == 0,
    ensures
        prev_nonempty(s, h) is None,
    decreases h,
{
    if h > 0 {
        lemma_prev_none(s, h - 1);
    }
}

proof fn lemma_next_finds(s: Seq<int>, g: int, g2: int)
    requires
        0 <= g < g2 < s.len(),
        s[g2] > 0,
        forall|j: int| g < j < g2 ==> s[j] == 0,
    ensures
        next_nonempty(s, g) == Some(g2),
    decreases g2 - g,
{
    if g + 1 < g2 {
        lemma_next_finds(s, g + 1, g2);
    }
}

proof fn lemma_next_none(s: Seq<int>, g: int)
    requires
        0 <= g < s.len(),
        forall|j: int| g < j < s.len() ==> s[j] == 0,
    ensures
        next_nonempty(s, g) is None,
    decreases s.len() - g,
{
    if g + 1 < s.len() {
        lemma_next_none(s, g + 1);
    }
}

/// The card in group `g`, row `r`, column `col` is where the selection
/// algebra places it: its group is `g`, and its row and column are `r` and
/// `col`.
proof fn lemma_card_place(s: Seq<int>, c: int, g: int, r: int, col: int)
    requires
        forall|i: int| 0 <= i < s.len() ==> s[i] >= 0,
        1 <= c,
        0 <= g < s.len(),
        0 <= r,
        0 <= col < c,
        r * c + col < s[g],
    ensures
        ({
            let v = offset(s, g) + r * c + col;
            &&& total(s) > 0
            &&& v < total(s)
            &&& group_of(s, v) == g
            &&& (v - offset(s, g)) / c == r
            &&& (v - offset(s, g)) % c == col
        }),
{
    let v = offset(s, g) + r * c + col;
    lemma_offset_step(s, g);
    lemma_offset_monotone(s, g + 1, s.len() as int);
    lemma_offset_all(s);
    lemma_sizes_nonneg(s, g);
    assert(r * c >= 0) by (nonlinear_arith)
        requires
            r >= 0,
            c >= 1,
    ;
    lemma_group_from_finds(s, v, g, 0);
    vstd::arithmetic::div_mod::lemma_fundamental_div_mod_converse(r * c + col, c, r, col);
}

/// The arrow keys move between neighbouring cards of a group: Left and
/// Right go to the card beside, stopping at the ends of the row; Up goes to
/// the card directly above (same column, one row of `c` cards back); Down
/// goes to the card directly below, or to the last card of the next row
/// when that row is too short to have the column.
pub proof fn arrows_move_to_neighbouring_cards(s: Seq<int>, c: int, g: int, r: int, col: int)
    requires
        forall|i: int| 0 <= i < s.len() ==> s[i] >= 0,
        1 <= c,
        0 <= g < s.len(),
        0 <= r,
        0 <= col < c,
        r * c + col < s[g],
    ensures
        ({
            let v = offset(s, g) + r * c + col;
            let below_last = s[g] - 1 - (r + 1) * c;
            &&& move_target(s, c, v, MoveDirection::Left) == (if col > 0 { v - 1 } else { v })
            &&& move_target(s, c, v, MoveDirection::Right) == (if col + 1 < c && r * c + col + 1 < s[g] {
                v + 1
            } else {
                v
            })
            &&& r > 0 ==> move_target(s, c, v, MoveDirection::Up) == v - c
            &&& (r + 1) * c < s[g] ==> move_target(s, c, v, MoveDirection::Down) == (if col <= below_last {
                v + c
            } else {
                offset(s, g) + s[g] - 1
            })
        }),
{
    lemma_card_place(s, c, g, r, col);
    lemma_succ_mul(r, c);
    if r > 0 {
        lemma_succ_mul(r - 1, c);
    }
}

/// At the edge of a group the arrow keys cross to the neighbouring group
/// that has cards, skipping empty ones: Down from the last row of group
/// `g` goes to the first row of the next such group `g2`, keeping the
/// column or taking that row's last card; Up from the first row goes to
/// the last row of the previous such group, the same way.
pub proof fn arrows_cross_to_neighbouring_groups(s: Seq<int>, c: int, g: int, g2: int, r: int, col: int)
    requires
        forall|i: int| 0 <= i < s.len() ==> s[i] >= 0,
        1 <= c,
        0 <= g < s.len(),
        0 <= g2 < s.len(),
        0 <= r,
        0 <= col < c,
        r * c + col < s[g],
        s[g2] > 0,
    ensures
        ({
            let v = offset(s, g) + r * c + col;
            let last_row_start = ((s[g2] - 1) / c) * c;
            &&& (g < g2 && (r + 1) * c >= s[g] && (forall|j: int| g < j < g2 ==> s[j] == 0)) ==> move_target(
                s,
                c,
                v,
                MoveDirection::Down,
            ) == offset(s, g2) + (if col <= s[g2] - 1 { col } else { s[g2] - 1 })
            &&& (g2 < g && r == 0 && (forall|j: int| g2 < j < g ==> s[j] == 0)) ==> move_target(
                s,
                c,
                v,
                MoveDirection::Up,
            ) == offset(s, g2) + last_row_start + (if col <= s[g2] - 1 - last_row_start {
                col
            } else {
                s[g2] - 1 - last_row_start
            })
        }),
{
    lemma_card_place(s, c, g, r, col);
    if g < g2 && (r + 1) * c >= s[g] && (forall|j: int| g < j < g2 ==> s[j] == 0) {
        lemma_next_finds(s, g, g2);
    }
    if g2 < g && r == 0 && (forall|j: int| g2 < j < g ==> s[j] == 0) {
        lemma_prev_finds(s, g2, g);
    }
}

/// With no group that has cards beyond the edge, Up from a group's first
/// row and Down from its last row leave the selection where it is.
pub proof fn arrows_stop_at_the_grid_edge(s: Seq<int>, c: int, g: int, r: int, col: int)
    requires
        forall|i: int| 0 <= i < s.len() ==> s[i] >= 0,
        1 <= c,
        0 <= g < s.len(),
        0 <= r,
        0 <= col < c,
        r * c + col < s[g],
    ensures
        ({
            let v = offset(s, g) + r * c + col;
            &&& ((r + 1) * c >= s[g] && (forall|j: int| g < j < s.len() ==> s[j] == 0)) ==> move_target(
                s,
                c,
                v,
                MoveDirection::Down,
            ) == v
            &&& (r == 0 && (forall|j: int| 0 <= j < g ==> s[j] == 0)) ==> move_target(s, c, v, MoveDirection::Up)
                == v
        }),
{
    lemma_card_place(s, c, g, r, col);
    if (r + 1) * c >= s[g] && (forall|j: int| g < j < s.len() ==> s[j] == 0) {
        lemma_next_none(s, g);
    }
    if r == 0 && (forall|j: int| 0 <= j < g ==> s[j] == 0) {
        lemma_prev_none(s, g);
    }
}

} // verus!
