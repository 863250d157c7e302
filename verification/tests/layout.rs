use ratatui::layout::{Constraint, Layout, Rect};
use screensaver::layout::{Bands, Partition, Region, CHART_HEIGHT, LEFT_WIDTH, TOP_HEIGHT};

fn region(rect: Rect) -> Region {
    Region::new(rect.x, rect.y, rect.width, rect.height)
}

fn covers(region: &Region, col: u32, row: u32) -> bool {
    let (x, y) = (region.x as u32, region.y as u32);
    x <= col && col < x + region.width as u32 && y <= row && row < y + region.height as u32
}

#[test]
fn region_keeps_what_fits() {
    let r = Region::new(3, 4, 50, 60);
    assert_eq!(r, Region { x: 3, y: 4, width: 50, height: 60 });
}

#[test]
fn region_is_cut_back_at_the_last_coordinate() {
    let r = Region::new(65000, 65535, 1000, 7);
    assert_eq!(r, Region { x: 65000, y: 65535, width: 535, height: 0 });
    assert_eq!(Region::new(0, 0, u16::MAX, u16::MAX).width, u16::MAX);
}

#[test]
fn region_is_cut_back_as_a_rect_is() {
    for (x, y, w, h) in [(0u16, 0u16, 80u16, 24u16), (65000, 10, 1000, 5), (1, 65535, 65535, 65535)] {
        assert_eq!(Region::new(x, y, w, h), region(Rect::new(x, y, w, h)));
    }
}

#[test]
fn columns_give_the_left_part_its_width_and_the_right_the_rest() {
    let (left, right) = Region::new(2, 3, 100, 10).split_columns(40);
    assert_eq!(left, Region { x: 2, y: 3, width: 40, height: 10 });
    assert_eq!(right, Region { x: 42, y: 3, width: 60, height: 10 });
}

#[test]
fn columns_of_a_narrow_region_leave_the_right_part_empty() {
    let (left, right) = Region::new(2, 3, 30, 10).split_columns(40);
    assert_eq!(left, Region { x: 2, y: 3, width: 30, height: 10 });
    assert_eq!(right, Region { x: 32, y: 3, width: 0, height: 10 });
}

#[test]
fn rows_give_the_top_part_its_height_and_the_bottom_the_rest() {
    let (top, bottom) = Region::new(0, 5, 40, 50).split_rows(20);
    assert_eq!(top, Region { x: 0, y: 5, width: 40, height: 20 });
    assert_eq!(bottom, Region { x: 0, y: 25, width: 40, height: 30 });
    let (top, bottom) = Region::new(0, 5, 40, 7).split_rows(20);
    assert_eq!(top, Region { x: 0, y: 5, width: 40, height: 7 });
    assert_eq!(bottom, Region { x: 0, y: 12, width: 40, height: 0 });
}

#[test]
fn halves_give_the_odd_row_to_the_top() {
    let (top, bottom) = Region::new(40, 0, 10, 7).split_halves();
    assert_eq!(top, Region { x: 40, y: 0, width: 10, height: 4 });
    assert_eq!(bottom, Region { x: 40, y: 4, width: 10, height: 3 });
    let (top, bottom) = Region::new(40, 0, 10, 8).split_halves();
    assert_eq!((top.height, bottom.y, bottom.height), (4, 4, 4));
}

#[test]
fn partition_of_a_common_terminal() {
    let cells = Partition::new(Region::new(0, 0, 120, 41));
    assert_eq!(cells.left_top, Region { x: 0, y: 0, width: 40, height: 20 });
    assert_eq!(cells.left_bottom, Region { x: 0, y: 20, width: 40, height: 21 });
    assert_eq!(cells.right_top, Region { x: 40, y: 0, width: 80, height: 21 });
    assert_eq!(cells.right_bottom, Region { x: 40, y: 21, width: 80, height: 20 });
}

#[test]
fn partition_uses_its_constants() {
    let cells = Partition::new(Region::new(0, 0, 200, 100));
    assert_eq!(cells.left_top.width, LEFT_WIDTH);
    assert_eq!(cells.left_top.height, TOP_HEIGHT);
    assert_eq!((LEFT_WIDTH, TOP_HEIGHT, CHART_HEIGHT), (40, 20, 6));
}

#[test]
fn partition_covers_every_cell_exactly_once() {
    for (width, height) in [(40u16, 1u16), (41, 1), (80, 24), (97, 33), (120, 41), (55, 20)] {
        let area = Region::new(0, 0, width, height);
        let cells = Partition::new(area);
        let parts = [cells.left_top, cells.left_bottom, cells.right_top, cells.right_bottom];
        for col in 0..(width as u32 + 3) {
            for row in 0..(height as u32 + 3) {
                let count = parts.iter().filter(|part| covers(part, col, row)).count();
                let expected = if covers(&area, col, row) { 1 } else { 0 };
                assert_eq!(count, expected, "{width}x{height} at ({col}, {row})");
            }
        }
    }
}

#[test]
fn partition_of_a_small_terminal_clips_without_failing() {
    let cells = Partition::new(Region::new(0, 0, 10, 0));
    assert_eq!(cells.left_top, Region { x: 0, y: 0, width: 10, height: 0 });
    assert_eq!(cells.right_bottom, Region { x: 10, y: 0, width: 0, height: 0 });
    let cells = Partition::new(Region::new(0, 0, 0, 0));
    assert_eq!(cells.left_bottom, Region { x: 0, y: 0, width: 0, height: 0 });
}

#[test]
fn partition_matches_the_layout_solver() {
    let horizontal = Layout::horizontal([Constraint::Length(40), Constraint::Fill(1)]);
    let left = Layout::vertical([Constraint::Length(20), Constraint::Fill(1)]);
    let right = Layout::vertical([Constraint::Fill(1), Constraint::Fill(1)]);
    for width in 0..=130u16 {
        for height in 0..=70u16 {
            let area = Rect::new(0, 0, width, height);
            let [l, r] = horizontal.areas(area);
            let [lt, lb] = left.areas(l);
            let [rt, rb] = right.areas(r);
            let cells = Partition::new(region(area));
            assert_eq!(cells.left_top, region(lt), "{width}x{height}");
            assert_eq!(cells.left_bottom, region(lb), "{width}x{height}");
            assert_eq!(cells.right_top, region(rt), "{width}x{height}");
            assert_eq!(cells.right_bottom, region(rb), "{width}x{height}");
        }
    }
}

#[test]
fn partition_matches_the_layout_solver_on_large_terminals() {
    let horizontal = Layout::horizontal([Constraint::Length(40), Constraint::Fill(1)]);
    let left = Layout::vertical([Constraint::Length(20), Constraint::Fill(1)]);
    let right = Layout::vertical([Constraint::Fill(1), Constraint::Fill(1)]);
    for (width, height) in [(500u16, 201u16), (1000, 1000), (4001, 3999), (65535, 65535), (65534, 1)] {
        let area = Rect::new(0, 0, width, height);
        let [l, r] = horizontal.areas(area);
        let [lt, lb] = left.areas(l);
        let [rt, rb] = right.areas(r);
        let cells = Partition::new(region(area));
        assert_eq!(cells.left_top, region(lt), "{width}x{height}");
        assert_eq!(cells.left_bottom, region(lb), "{width}x{height}");
        assert_eq!(cells.right_top, region(rt), "{width}x{height}");
        assert_eq!(cells.right_bottom, region(rb), "{width}x{height}");
    }
}

#[test]
fn bands_of_a_high_region() {
    let bands = Bands::new(Region::new(0, 20, 40, 21));
    assert_eq!(bands.table, Region { x: 0, y: 20, width: 40, height: 9 });
    assert_eq!(bands.load, Region { x: 0, y: 29, width: 40, height: 6 });
    assert_eq!(bands.history, Region { x: 0, y: 35, width: 40, height: 6 });
}

#[test]
fn bands_of_a_low_region_share_its_rows() {
    let bands = Bands::new(Region::new(0, 20, 40, 7));
    assert_eq!(bands.table, Region { x: 0, y: 20, width: 40, height: 0 });
    assert_eq!(bands.load, Region { x: 0, y: 20, width: 40, height: 4 });
    assert_eq!(bands.history, Region { x: 0, y: 24, width: 40, height: 3 });
}

#[test]
fn bands_match_the_layout_solver() {
    let vertical = Layout::vertical([
        Constraint::Fill(1),
        Constraint::Length(6),
        Constraint::Length(6),
    ]);
    for y in [0u16, 1, 20, 33] {
        for height in 0..=90u16 {
            let area = Rect::new(0, y, 40, height);
            let [table, load, history] = vertical.areas(area);
            let bands = Bands::new(region(area));
            assert_eq!(bands.table, region(table), "height {height} at {y}");
            assert_eq!(bands.load, region(load), "height {height} at {y}");
            assert_eq!(bands.history, region(history), "height {height} at {y}");
        }
    }
}

#[test]
fn bands_cover_every_cell_exactly_once() {
    for height in [0u16, 1, 5, 11, 12, 13, 40] {
        let area = Region::new(7, 3, 9, height);
        let bands = Bands::new(area);
        let parts = [bands.table, bands.load, bands.history];
        for col in 0..20u32 {
            for row in 0..(height as u32 + 6) {
                let count = parts.iter().filter(|part| covers(part, col, row)).count();
                let expected = if covers(&area, col, row) { 1 } else { 0 };
                assert_eq!(count, expected, "height {height} at ({col}, {row})");
            }
        }
    }
}

#[test]
fn row_positions_run_from_top_to_bottom() {
    assert_eq!(Region::new(4, 9, 3, 4).row_positions(), vec![9, 10, 11, 12]);
    assert_eq!(Region::new(4, 9, 3, 0).row_positions(), Vec::<u16>::new());
    assert_eq!(Region::new(0, 65533, 1, 9).row_positions(), vec![65533, 65534]);
}
