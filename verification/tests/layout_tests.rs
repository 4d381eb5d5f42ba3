use mmtui::layout::{
    connector_cells, slot_height, BracketGrid, CELL_W_FULL, CONNECTOR_WIDTH, GAME_HEIGHT,
    REGION_HEIGHT,
};

#[test]
fn test_region_height_is_31() {
    assert_eq!(REGION_HEIGHT, 31);
}

#[test]
fn test_slot_heights() {
    let sh: Vec<u16> = (0..4).map(slot_height).collect();
    assert_eq!(sh, [3, 7, 15, 31]);
    assert_eq!(GAME_HEIGHT, 3);
}

#[test]
fn test_bracket_grid_cell_count() {
    let grid = BracketGrid::compute(80);
    assert_eq!(grid.cells.len(), 15);
}

#[test]
fn test_first_round_centers() {
    let grid = BracketGrid::compute(80);
    let first = grid.cells_for_depth(0);
    assert_eq!(first.len(), 8);
    let centers: Vec<u16> = first.iter().map(|c| c.center_row).collect();
    assert_eq!(centers, vec![1, 5, 9, 13, 17, 21, 25, 29]);
}

#[test]
fn test_second_round_centers() {
    let grid = BracketGrid::compute(80);
    let second = grid.cells_for_depth(1);
    assert_eq!(second.len(), 4);
    let centers: Vec<u16> = second.iter().map(|c| c.center_row).collect();
    assert_eq!(centers, vec![3, 11, 19, 27]);
}

#[test]
fn test_sweet16_centers() {
    let grid = BracketGrid::compute(80);
    let s16 = grid.cells_for_depth(2);
    assert_eq!(s16.len(), 2);
    let centers: Vec<u16> = s16.iter().map(|c| c.center_row).collect();
    assert_eq!(centers, vec![7, 23]);
}

#[test]
fn test_elite8_center() {
    let grid = BracketGrid::compute(80);
    let e8 = grid.cells_for_depth(3);
    assert_eq!(e8.len(), 1);
    assert_eq!(e8[0].center_row, 15);
}

#[test]
fn test_elite8_no_outbound_connector() {
    let grid = BracketGrid::compute(80);
    let e8 = grid.cells_for_depth(3);
    assert!(!e8[0].draw_outbound_connector);
}

#[test]
fn test_first_round_has_outbound_connector() {
    let grid = BracketGrid::compute(80);
    let first = grid.cells_for_depth(0);
    assert!(first.iter().all(|c| c.draw_outbound_connector));
}

#[test]
fn test_parent_center_is_midpoint_of_children() {
    let grid = BracketGrid::compute(80);
    for depth in 0..3usize {
        let children = grid.cells_for_depth(depth).to_vec();
        let parents = grid.cells_for_depth(depth + 1).to_vec();
        for (j, parent) in parents.iter().enumerate() {
            let c_top = children[2 * j].center_row;
            let c_bot = children[2 * j + 1].center_row;
            let expected_mid = (c_top + c_bot) / 2;
            assert_eq!(
                parent.center_row, expected_mid,
                "depth={depth} parent={j}: expected midpoint of {c_top},{c_bot}={expected_mid}"
            );
        }
    }
}

#[test]
fn midpoint_invariant_holds_in_all_four_orientations() {
    let grids = [
        BracketGrid::compute(80),
        BracketGrid::compute_mirrored(80),
        BracketGrid::compute_flipped(80),
        BracketGrid::compute_flipped_mirrored(80),
    ];
    for grid in grids.iter() {
        for depth in 0..3usize {
            let children = grid.cells_for_depth(depth).to_vec();
            let parents = grid.cells_for_depth(depth + 1).to_vec();
            for (j, parent) in parents.iter().enumerate() {
                let c_a = children[2 * j].center_row;
                let c_b = children[2 * j + 1].center_row;
                assert_eq!(parent.center_row, (c_a + c_b) / 2);
            }
        }
    }
}

#[test]
fn test_cell_width_is_computed_from_available_width() {
    let width: u16 = 99;
    let expected = width.saturating_sub(CONNECTOR_WIDTH * 3) / 4;
    let grid = BracketGrid::compute(width);
    assert_eq!(grid.cell_width, expected.min(CELL_W_FULL));
    for cell in &grid.cells {
        assert_eq!(cell.cell_width, grid.cell_width);
    }
}

#[test]
fn test_cell_width_caps_at_full_width_limit() {
    let grid = BracketGrid::compute(200);
    assert_eq!(grid.cell_width, CELL_W_FULL);
}

#[test]
fn total_width_is_four_columns_plus_three_zones() {
    for width in [0u16, 13, 80, 99, 200] {
        let grid = BracketGrid::compute(width);
        assert_eq!(grid.total_width, 4 * grid.cell_width + 3 * CONNECTOR_WIDTH);
        let mirrored = BracketGrid::compute_mirrored(width);
        assert_eq!(mirrored.total_width, grid.total_width);
        if width >= 13 {
            assert!(grid.total_width <= width);
        }
    }
}

#[test]
fn connector_cells_draw_corners_spine_and_stubs() {
    let cells = connector_cells(1, 3, 5, false);
    assert_eq!(
        cells,
        vec![
            (0, 1, '─'),
            (1, 1, '┐'),
            (1, 2, '│'),
            (0, 3, '─'),
            (1, 3, '├'),
            (2, 3, '─'),
            (1, 4, '│'),
            (0, 5, '─'),
            (1, 5, '┘'),
        ]
    );
    let mirrored = connector_cells(1, 3, 5, true);
    assert_eq!(
        mirrored,
        vec![
            (1, 1, '┌'),
            (2, 1, '─'),
            (1, 2, '│'),
            (0, 3, '─'),
            (1, 3, '┤'),
            (1, 4, '│'),
            (1, 5, '└'),
            (2, 5, '─'),
        ]
    );
}

#[test]
fn cell_width_never_falls_below_one() {
    let grid = BracketGrid::compute(0);
    assert_eq!(grid.cell_width, 1);
    assert_eq!(grid.cells.len(), 15);
}

#[test]
fn mirrored_layout_puts_first_round_rightmost() {
    let grid = BracketGrid::compute_mirrored(100);
    assert!(grid.round_cols[0] > grid.round_cols[3]);
    assert_eq!(grid.round_cols[3], 0);
}

#[test]
fn flipped_layout_reflects_rows() {
    let normal = BracketGrid::compute(80);
    let flipped = BracketGrid::compute_flipped(80);
    for (a, b) in normal.cells.iter().zip(flipped.cells.iter()) {
        assert_eq!(b.center_row, 30 - a.center_row);
    }
}
