use platformer_core::editor::{editor_grid_lines, GRID_LINE_COUNT};
use platformer_core::grid::snap_coord;
use platformer_core::world::Camera;

#[test]
fn snap_upper_half_snaps_up() {
    // Remainder 40 of 64 is past the midpoint: snap up by 24.
    assert_eq!(snap_coord(40, 0), 64);
    assert_eq!(snap_coord(50, 0), 64);
}

#[test]
fn snap_lower_half_snaps_down() {
    assert_eq!(snap_coord(10, 0), 0);
    assert_eq!(snap_coord(95, 0), 64);
}

#[test]
fn snap_midpoint_snaps_up() {
    assert_eq!(snap_coord(32, 0), 64);
    assert_eq!(snap_coord(96, 0), 128);
    assert_eq!(snap_coord(-32, 0), 0);
}

#[test]
fn snap_negative_coordinates() {
    assert_eq!(snap_coord(-10, 0), 0);
    assert_eq!(snap_coord(-40, 0), -64);
    assert_eq!(snap_coord(-300, 0), -320);
}

#[test]
fn snap_exact_grid_line_stays() {
    assert_eq!(snap_coord(0, 0), 0);
    assert_eq!(snap_coord(64, 0), 64);
    assert_eq!(snap_coord(-128, 0), -128);
}

#[test]
fn snap_respects_phase_offset() {
    // Lines at 64k + 32: 40 is nearest to 32, 70 nearest to 96.
    assert_eq!(snap_coord(40, 32), 32);
    assert_eq!(snap_coord(70, 32), 96);
    assert_eq!(snap_coord(64, 32), 96);
}

#[test]
fn snap_never_moves_more_than_half_a_cell() {
    for c in -200i64..200i64 {
        let s = snap_coord(c, 0);
        assert_eq!(s % 64, 0);
        assert!((s - c).abs() <= 32);
    }
}

#[test]
fn grid_lines_drawn_when_zoomed_in() {
    let cam = Camera { x: 0, y: 0, scale: 1000 };
    let lines = editor_grid_lines(&cam).expect("zoomed-in camera shows the grid");
    assert_eq!(lines.len(), GRID_LINE_COUNT);
    assert_eq!(lines[0], -1248);
    assert_eq!(lines[1], -1184);
    assert_eq!(lines[49], -1248 + 49 * 64);
}

#[test]
fn grid_lines_hidden_when_zoomed_out() {
    let cam = Camera { x: 0, y: 0, scale: 2000 };
    assert!(editor_grid_lines(&cam).is_none());
}
