use grid_bench::grid::column_count;

#[test]
fn column_count_default_viewport() {
    assert_eq!(column_count(800, 32, 4, 16), 21);
}

#[test]
fn column_count_narrow_viewport() {
    assert_eq!(column_count(364, 32, 4, 16), 9);
}

#[test]
fn column_count_at_least_one() {
    assert_eq!(column_count(10, 32, 4, 16), 1);
}

use grid_bench::grid::{cell_at, generate, overlay_label};

#[test]
fn generate_two_by_three() {
    let cells = generate(2, 3);
    assert_eq!(cells.len(), 6);
    for (i, c) in cells.iter().enumerate() {
        assert_eq!(c.index, i as u64);
    }
    assert_eq!(cells[0].hue, 0);
    assert_eq!(cells[5].hue, 300);
    let hues: Vec<u32> = cells.iter().map(|c| c.hue).collect();
    assert_eq!(hues, vec![0, 60, 120, 180, 240, 300]);
}

#[test]
fn generate_same_total_same_colors() {
    let a: Vec<u32> = generate(2, 3).iter().map(|c| c.hue).collect();
    let b: Vec<u32> = generate(6, 1).iter().map(|c| c.hue).collect();
    assert_eq!(a, b);
}

#[test]
fn generate_empty_grid() {
    assert!(generate(0, 5).is_empty());
}

#[test]
fn cell_hue_rounds_down() {
    assert_eq!(cell_at(1, 7).hue, 51);
    assert_eq!(cell_at(6, 7).hue, 308);
}

#[test]
fn overlay_label_text() {
    assert_eq!(overlay_label(50, 21, 32), "Grid: 50x21 (1050 cells) @ 32px");
    assert_eq!(overlay_label(1, 1, 8), "Grid: 1x1 (1 cells) @ 8px");
}
