//! Bracket layout engine: pure geometry mapping a terminal width and an
//! orientation to the 15 cell positions of one regional sub-bracket
//! (8 first-round + 4 second-round + 2 regional-semifinal + 1
//! regional-final cells).

use vstd::prelude::*;

use crate::domain::RoundKind;

verus! {

/// Rows per game cell: top-team line, status line, bottom-team line.
pub const GAME_HEIGHT: u16 = 3;

/// Total terminal rows consumed by one regional bracket.
pub const REGION_HEIGHT: u16 = 31;

/// Width of the connector zone drawn between adjacent round columns.
pub const CONNECTOR_WIDTH: u16 = 3;

/// Maximum game cell width in wider terminals.
pub const CELL_W_FULL: u16 = 22;

/// Slot height at bracket depth `d`: the rows one game's subtree occupies.
/// Follows SH(0) = 3, SH(d) = 2 * SH(d - 1) + 1, so 3, 7, 15, 31.
pub open spec fn slot_height_spec(d: int) -> int {
    if d == 0 {
        3
    } else if d == 1 {
        7
    } else if d == 2 {
        15
    } else {
        31
    }
}

/// Number of games at bracket depth `d` (0 = first round, 3 = regional final).
pub open spec fn games_at_depth(d: int) -> int {
    if d == 0 {
        8
    } else if d == 1 {
        4
    } else if d == 2 {
        2
    } else {
        1
    }
}

/// Index of the first cell of depth `d` in the depth-major cell list.
pub open spec fn depth_offset_spec(d: int) -> int {
    if d == 0 {
        0
    } else if d == 1 {
        8
    } else if d == 2 {
        12
    } else if d == 3 {
        14
    } else {
        15
    }
}

/// Vertical distance between adjacent games at depth `d`.
pub open spec fn spacing_spec(d: int) -> int {
    slot_height_spec(d + 1) - slot_height_spec(d)
}

/// Center row of game `i` at depth `d`, before any vertical flip.
pub open spec fn center_normal_spec(d: int, i: int) -> int {
    slot_height_spec(d) / 2 + i * spacing_spec(d)
}

/// Center row of game `i` at depth `d` under the given orientation.
pub open spec fn center_row_spec(d: int, i: int, flipped: bool) -> int {
    if flipped {
        (REGION_HEIGHT - 1) - center_normal_spec(d, i)
    } else {
        center_normal_spec(d, i)
    }
}

/// The center formula expanded per depth, with literal coefficients.
proof fn lemma_center_normal_value(d: int, i: int)
    requires
        0 <= d <= 3,
    ensures
        center_normal_spec(d, i) == if d == 0 {
            1 + i * 4
        } else if d == 1 {
            3 + i * 8
        } else if d == 2 {
            7 + i * 16
        } else {
            15
        },
{
    if d == 0 {
        assert(spacing_spec(0) == 4);
        assert(i * spacing_spec(0) == i * 4);
    } else if d == 1 {
        assert(spacing_spec(1) == 8);
        assert(i * spacing_spec(1) == i * 8);
    } else if d == 2 {
        assert(spacing_spec(2) == 16);
        assert(i * spacing_spec(2) == i * 16);
    } else {
        assert(spacing_spec(3) == 0);
        assert(i * spacing_spec(3) == i * 0);
    }
}

/// The depth whose cells cover position `k` of the depth-major list.
pub open spec fn depth_of_cell(k: int) -> int {
    if k < 8 {
        0
    } else if k < 12 {
        1
    } else if k < 14 {
        2
    } else {
        3
    }
}

/// The round played at bracket depth `d`.
pub open spec fn depth_kind_spec(d: int) -> RoundKind {
    if d == 0 {
        RoundKind::First
    } else if d == 1 {
        RoundKind::Second
    } else if d == 2 {
        RoundKind::Sweet16
    } else {
        RoundKind::Elite8
    }
}

/// Cell width chosen for a terminal width: the per-column share after the
/// three connector zones, clamped to [1, CELL_W_FULL].
pub open spec fn cell_width_spec(w: int) -> int {
    let per_col = if w > 3 * CONNECTOR_WIDTH {
        (w - 3 * CONNECTOR_WIDTH) / 4
    } else {
        0
    };
    if per_col < 1 {
        1
    } else if per_col > CELL_W_FULL {
        CELL_W_FULL as int
    } else {
        per_col
    }
}

/// Starting column of the round column at depth `d`.
pub open spec fn round_col_spec(cell_width: int, mirrored: bool, d: int) -> int {
    let stride = cell_width + CONNECTOR_WIDTH;
    if mirrored {
        stride * (3 - d)
    } else {
        stride * d
    }
}

/// Pre-computed layout position for one game within a regional bracket.
#[derive(Debug, Clone)]
pub struct GameCell {
    /// Row of the score/status line (center of the 3-row cell), relative
    /// to the bracket origin.
    pub center_row: u16,
    /// Starting column of this cell within the grid.
    pub col: u16,
    /// Width of the cell in terminal columns.
    pub cell_width: u16,
    /// Whether a connector leads out of this cell toward its parent round.
    /// False at the regional final, which has no parent column here.
    pub draw_outbound_connector: bool,
    /// Round this cell belongs to.
    pub round: RoundKind,
    /// Index of this game within its round, top to bottom before flipping.
    pub game_idx: usize,
}

/// Pre-computed layout for one 4-round regional bracket.
#[derive(Debug, Clone)]
pub struct BracketGrid {
    /// All cells in depth-major order: 8 + 4 + 2 + 1 = 15 cells.
    pub cells: Vec<GameCell>,
    /// Starting column of each round column, indexed by depth.
    pub round_cols: [u16; 4],
    /// Total grid width in terminal columns.
    pub total_width: u16,
    /// Total grid height in terminal rows.
    pub total_height: u16,
    /// Cell width chosen from the terminal width at compute time.
    pub cell_width: u16,
    /// Depth 0 on the right, depth 3 on the left.
    pub mirrored: bool,
    /// Rows reflected vertically (first round at the bottom).
    pub flipped: bool,
}

impl BracketGrid {
    /// Every field of every cell agrees with the layout formulas.
    pub open spec fn wf(self) -> bool {
        &&& self.cells.len() == 15
        &&& 1 <= self.cell_width <= CELL_W_FULL
        &&& self.total_width == 4 * self.cell_width + 3 * CONNECTOR_WIDTH
        &&& self.total_height == REGION_HEIGHT
        &&& forall|d: int|
            0 <= d < 4 ==> self.round_cols@[d] == round_col_spec(
                self.cell_width as int,
                self.mirrored,
                d,
            )
        &&& forall|k: int|
            0 <= k < 15 ==> {
                let c = #[trigger] self.cells@[k];
                let d = depth_of_cell(k);
                let i = k - depth_offset_spec(d);
                &&& c.center_row == center_row_spec(d, i, self.flipped)
                &&& c.col == round_col_spec(self.cell_width as int, self.mirrored, d)
                &&& c.cell_width == self.cell_width
                &&& c.draw_outbound_connector == (d < 3)
                &&& c.round == depth_kind_spec(d)
                &&& c.game_idx == i
            }
    }

    /// Layout with the first round on the left, rows top-down.
    pub fn compute(terminal_width: u16) -> (r: Self)
        ensures
            r.wf(),
            !r.mirrored,
            !r.flipped,
            r.cell_width == cell_width_spec(terminal_width as int),
    {
        Self::compute_inner(terminal_width, false, false)
    }

    /// Depth 0 on the right, depth 3 on the left, for right-side panes.
    pub fn compute_mirrored(terminal_width: u16) -> (r: Self)
        ensures
            r.wf(),
            r.mirrored,
            !r.flipped,
            r.cell_width == cell_width_spec(terminal_width as int),
    {
        Self::compute_inner(terminal_width, true, false)
    }

    /// First round at the bottom, for bottom-left panes.
    pub fn compute_flipped(terminal_width: u16) -> (r: Self)
        ensures
            r.wf(),
            !r.mirrored,
            r.flipped,
            r.cell_width == cell_width_spec(terminal_width as int),
    {
        Self::compute_inner(terminal_width, false, true)
    }

    /// Flipped vertically and mirrored horizontally, for bottom-right panes.
    pub fn compute_flipped_mirrored(terminal_width: u16) -> (r: Self)
        ensures
            r.wf(),
            r.mirrored,
            r.flipped,
            r.cell_width == cell_width_spec(terminal_width as int),
    {
        Self::compute_inner(terminal_width, true, true)
    }

    /// Shared layout engine for the four orientation variants.
    fn compute_inner(terminal_width: u16, mirrored: bool, flipped: bool) -> (r: Self)
        ensures
            r.wf(),
            r.mirrored == mirrored,
            r.flipped == flipped,
            r.cell_width == cell_width_spec(terminal_width as int),
    {
        let connector_total: u16 = CONNECTOR_WIDTH * 3;
        let per_col: u16 = if terminal_width > connector_total {
            (terminal_width - connector_total) / 4
        } else {
            0
        };
        let cell_width: u16 = if per_col < 1 {
            1
        } else if per_col > CELL_W_FULL {
            CELL_W_FULL
        } else {
            per_col
        };
        let stride: u16 = cell_width + CONNECTOR_WIDTH;
        let round_cols: [u16; 4] = if mirrored {
            [stride * 3, stride * 2, stride, 0u16]
        } else {
            [0u16, stride, stride * 2, stride * 3]
        };
        let total_width: u16 = stride * 3 + cell_width;

        proof {
            let cw = cell_width as int;
            assert(round_col_spec(cw, mirrored, 0) == if mirrored { (cw + 3) * 3 } else { 0int });
            assert(round_col_spec(cw, mirrored, 1) == if mirrored { (cw + 3) * 2 } else { (cw + 3) * 1 });
            assert(round_col_spec(cw, mirrored, 2) == if mirrored { (cw + 3) * 1 } else { (cw + 3) * 2 });
            assert(round_col_spec(cw, mirrored, 3) == if mirrored { 0int } else { (cw + 3) * 3 });
        }
        let mut cells: Vec<GameCell> = Vec::new();
        push_depth_cells(&mut cells, 0, round_cols[0], cell_width, flipped);
        push_depth_cells(&mut cells, 1, round_cols[1], cell_width, flipped);
        push_depth_cells(&mut cells, 2, round_cols[2], cell_width, flipped);
        push_depth_cells(&mut cells, 3, round_cols[3], cell_width, flipped);
        proof {
            assert forall|k: int| 0 <= k < 15 implies {
                let c = #[trigger] cells@[k];
                let d = depth_of_cell(k);
                let i = k - depth_offset_spec(d);
                &&& c.center_row == center_row_spec(d, i, flipped)
                &&& c.col == round_col_spec(cell_width as int, mirrored, d)
                &&& c.cell_width == cell_width
                &&& c.draw_outbound_connector == (d < 3)
                &&& c.round == depth_kind_spec(d)
                &&& c.game_idx == i
            } by {
                let d = depth_of_cell(k);
                let i = k - depth_offset_spec(d);
                assert(cells@[depth_offset_spec(d) + i] == cells@[k]);
            }
        }

        BracketGrid {
            cells,
            round_cols,
            total_width,
            total_height: REGION_HEIGHT,
            cell_width,
            mirrored,
            flipped,
        }
    }

    /// The cells of one depth, in top-to-bottom bracket order.
    pub fn cells_for_depth(&self, depth: usize) -> (r: &[GameCell])
        requires
            depth < 4,
            self.wf(),
        ensures
            r@ == self.cells@.subrange(depth_offset_spec(depth as int), depth_offset_spec(
                depth as int + 1,
            )),
            r@.len() == games_at_depth(depth as int),
    {
        let start: usize = depth_offset(depth);
        let end: usize = depth_offset(depth + 1);
        &self.cells.as_slice()[start..end]
    }
}

/// Index of the first cell of depth `d` in the depth-major cell list.
pub fn depth_offset(d: usize) -> (r: usize)
    requires
        d <= 4,
    ensures
        r == depth_offset_spec(d as int),
{
    if d == 0 {
        0
    } else if d == 1 {
        8
    } else if d == 2 {
        12
    } else if d == 3 {
        14
    } else {
        15
    }
}

/// Slot height at bracket depth `d`.
pub fn slot_height(d: usize) -> (r: u16)
    requires
        d < 4,
    ensures
        r == slot_height_spec(d as int),
{
    if d == 0 {
        GAME_HEIGHT
    } else if d == 1 {
        2 * GAME_HEIGHT + 1
    } else if d == 2 {
        2 * (2 * GAME_HEIGHT + 1) + 1
    } else {
        2 * (2 * (2 * GAME_HEIGHT + 1) + 1) + 1
    }
}

/// Bracket depth of a round drawn in the regional grid; rounds outside the
/// regional bracket draw at depth 0.
pub fn round_to_depth(round: RoundKind) -> (r: usize)
    ensures
        r == round_to_depth_spec(round),
{
    match round {
        RoundKind::First => 0,
        RoundKind::Second => 1,
        RoundKind::Sweet16 => 2,
        RoundKind::Elite8 => 3,
        _ => 0,
    }
}

/// Bracket depth of a round drawn in the regional grid.
pub open spec fn round_to_depth_spec(round: RoundKind) -> int {
    match round {
        RoundKind::First => 0,
        RoundKind::Second => 1,
        RoundKind::Sweet16 => 2,
        RoundKind::Elite8 => 3,
        _ => 0,
    }
}

/// Append the cells of one depth to the depth-major cell list.
fn push_depth_cells(
    cells: &mut Vec<GameCell>,
    depth: usize,
    col: u16,
    cell_width: u16,
    flipped: bool,
)
    requires
        depth < 4,
        old(cells).len() == depth_offset_spec(depth as int),
    ensures
        final(cells).len() == depth_offset_spec(depth as int + 1),
        forall|k: int| 0 <= k < old(cells).len() ==> final(cells)@[k] == old(cells)@[k],
        forall|i: int|
            0 <= i < games_at_depth(depth as int) ==> {
                let c = #[trigger] final(cells)@[depth_offset_spec(depth as int) + i];
                &&& c.center_row == center_row_spec(depth as int, i, flipped)
                &&& c.col == col
                &&& c.cell_width == cell_width
                &&& c.draw_outbound_connector == (depth < 3)
                &&& c.round == depth_kind_spec(depth as int)
                &&& c.game_idx == i
            },
{
    let (count, round): (usize, RoundKind) = if depth == 0 {
        (8, RoundKind::First)
    } else if depth == 1 {
        (4, RoundKind::Second)
    } else if depth == 2 {
        (2, RoundKind::Sweet16)
    } else {
        (1, RoundKind::Elite8)
    };
    let mut i: usize = 0;
    while i < count
        invariant
            depth < 4,
            count == games_at_depth(depth as int),
            round == depth_kind_spec(depth as int),
            i <= count,
            cells.len() == depth_offset_spec(depth as int) + i,
            forall|k: int| 0 <= k < old(cells).len() ==> cells@[k] == old(cells)@[k],
            old(cells).len() == depth_offset_spec(depth as int),
            forall|m: int|
                0 <= m < i ==> {
                    let c = #[trigger] cells@[depth_offset_spec(depth as int) + m];
                    &&& c.center_row == center_row_spec(depth as int, m, flipped)
                    &&& c.col == col
                    &&& c.cell_width == cell_width
                    &&& c.draw_outbound_connector == (depth < 3)
                    &&& c.round == depth_kind_spec(depth as int)
                    &&& c.game_idx == m
                },
        decreases count - i,
    {
        let center_normal: u16 = if depth == 0 {
            1 + (i as u16) * 4
        } else if depth == 1 {
            3 + (i as u16) * 8
        } else if depth == 2 {
            7 + (i as u16) * 16
        } else {
            15
        };
        proof {
            lemma_center_normal_value(depth as int, i as int);
        }
        let center_row: u16 = if flipped {
            (REGION_HEIGHT - 1) - center_normal
        } else {
            center_normal
        };
        cells.push(
            GameCell {
                center_row,
                col,
                cell_width,
                draw_outbound_connector: depth < 3,
                round,
                game_idx: i,
            },
        );
        i += 1;
    }
}

/// The vertical spine glyphs of a connector: one `│` per row in
/// `[from, to)` at the given zone column.
pub open spec fn vertical_run(col: u16, from: int, to: int) -> Seq<(u16, u16, char)>
    decreases to - from when from <= to
{
    if from >= to {
        Seq::<(u16, u16, char)>::empty()
    } else {
        vertical_run(col, from, to - 1).push((col, (to - 1) as u16, '│'))
    }
}

/// The glyphs of one parent-to-children connector, as (zone column, row,
/// glyph) triples in drawing order: a corner and stub at each child's
/// row, a spine between them, and a stub into the parent's row, with the
/// corners' orientation following the mirrored flag.
pub open spec fn connector_cells_spec(
    r_top: u16,
    r_mid: u16,
    r_bot: u16,
    mirrored: bool,
) -> Seq<(u16, u16, char)> {
    if mirrored {
        seq![(1u16, r_top, '┌'), (2u16, r_top, '─')] + vertical_run(
            1,
            r_top + 1,
            r_mid as int,
        ) + seq![(0u16, r_mid, '─'), (1u16, r_mid, '┤')] + vertical_run(
            1,
            r_mid + 1,
            r_bot as int,
        ) + seq![(1u16, r_bot, '└'), (2u16, r_bot, '─')]
    } else {
        seq![(0u16, r_top, '─'), (1u16, r_top, '┐')] + vertical_run(
            1,
            r_top + 1,
            r_mid as int,
        ) + seq![(0u16, r_mid, '─'), (1u16, r_mid, '├'), (2u16, r_mid, '─')] + vertical_run(
            1,
            r_mid + 1,
            r_bot as int,
        ) + seq![(0u16, r_bot, '─'), (1u16, r_bot, '┘')]
    }
}

/// Lay out one connector between a parent's row and its two children's
/// rows; the renderer only clips and blits the returned glyphs into the
/// 3-column connector zone.
#[verifier::loop_isolation(false)]
pub fn connector_cells(r_top: u16, r_mid: u16, r_bot: u16, mirrored: bool) -> (r: Vec<
    (u16, u16, char),
>)
    requires
        r_top < r_mid,
        r_mid < r_bot,
    ensures
        r@ == connector_cells_spec(r_top, r_mid, r_bot, mirrored),
{
    let mut out: Vec<(u16, u16, char)> = Vec::new();
    if mirrored {
        out.push((1, r_top, '┌'));
        out.push((2, r_top, '─'));
    } else {
        out.push((0, r_top, '─'));
        out.push((1, r_top, '┐'));
    }
    let ghost head = out@;
    proof {
        assert(head + vertical_run(1, r_top + 1, r_top + 1) =~= head);
    }
    let mut row: u16 = r_top + 1;
    while row < r_mid
        invariant
            r_top < row <= r_mid,
            out@ == head + vertical_run(1, r_top + 1, row as int),
        decreases r_mid - row,
    {
        out.push((1, row, '│'));
        proof {
            assert(head + vertical_run(1, r_top + 1, row + 1) =~= (head + vertical_run(
                1,
                r_top + 1,
                row as int,
            )).push((1u16, row, '│')));
        }
        row += 1;
    }
    if mirrored {
        out.push((0, r_mid, '─'));
        out.push((1, r_mid, '┤'));
    } else {
        out.push((0, r_mid, '─'));
        out.push((1, r_mid, '├'));
        out.push((2, r_mid, '─'));
    }
    let ghost upper = out@;
    proof {
        assert(upper + vertical_run(1, r_mid + 1, r_mid + 1) =~= upper);
    }
    let mut row: u16 = r_mid + 1;
    while row < r_bot
        invariant
            r_mid < row <= r_bot,
            out@ == upper + vertical_run(1, r_mid + 1, row as int),
        decreases r_bot - row,
    {
        out.push((1, row, '│'));
        proof {
            assert(upper + vertical_run(1, r_mid + 1, row + 1) =~= (upper + vertical_run(
                1,
                r_mid + 1,
                row as int,
            )).push((1u16, row, '│')));
        }
        row += 1;
    }
    if mirrored {
        out.push((1, r_bot, '└'));
        out.push((2, r_bot, '─'));
    } else {
        out.push((0, r_bot, '─'));
        out.push((1, r_bot, '┘'));
    }
    proof {
        assert(out@ =~= connector_cells_spec(r_top, r_mid, r_bot, mirrored));
    }
    out
}

/// For every parent cell the layout engine yields, the parent's center row
/// is exactly the arithmetic midpoint of its two children's center rows,
/// in all four orientation variants.
pub proof fn lemma_parent_center_is_midpoint(g: BracketGrid, d: int, j: int)
    requires
        g.wf(),
        0 <= d < 3,
        0 <= j < games_at_depth(d + 1),
    ensures
        ({
            let parent = g.cells@[depth_offset_spec(d + 1) + j];
            let child_a = g.cells@[depth_offset_spec(d) + 2 * j];
            let child_b = g.cells@[depth_offset_spec(d) + (2 * j + 1)];
            parent.center_row == (child_a.center_row + child_b.center_row) / 2
        }),
{
    let kp = depth_offset_spec(d + 1) + j;
    let ka = depth_offset_spec(d) + 2 * j;
    let kb = depth_offset_spec(d) + (2 * j + 1);
    assert(depth_of_cell(kp) == d + 1 && depth_of_cell(ka) == d && depth_of_cell(kb) == d);
    let parent = g.cells@[kp];
    let child_a = g.cells@[ka];
    let child_b = g.cells@[kb];
    assert(parent.center_row == center_row_spec(d + 1, j, g.flipped));
    assert(child_a.center_row == center_row_spec(d, 2 * j, g.flipped));
    assert(child_b.center_row == center_row_spec(d, 2 * j + 1, g.flipped));
    lemma_center_normal_value(d + 1, j);
    lemma_center_normal_value(d, 2 * j);
    lemma_center_normal_value(d, 2 * j + 1);
}

} // verus!
