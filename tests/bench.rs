use grid_bench::bench::GridBench;

#[test]
fn add_then_remove_restores_rows() {
    let mut b = GridBench::new(50, 32, true, true, 3);
    b.add_row();
    assert_eq!(b.row_count, 53);
    b.remove_row();
    assert_eq!(b.row_count, 50);
}

#[test]
fn remove_then_add_from_one_row_is_not_restored() {
    let mut b = GridBench::new(1, 32, true, true, 1);
    b.remove_row();
    assert_eq!(b.row_count, 1);
    b.add_row();
    assert_eq!(b.row_count, 2);
}

#[test]
fn remove_row_saturates_at_one() {
    let mut b = GridBench::new(3, 32, false, false, 10);
    b.remove_row();
    assert_eq!(b.row_count, 1);
}

#[test]
fn new_with_zero_rows_keeps_one() {
    let b = GridBench::new(0, 32, true, false, 1);
    assert_eq!(b.row_count, 1);
    assert!(b.enable_hover);
    assert!(!b.enable_click);
}

#[test]
fn cell_size_never_exceeds_ceiling() {
    let mut b = GridBench::new(5, 120, true, true, 1);
    b.increase_cell_size();
    assert_eq!(b.cell_size, 124);
    for _ in 0..10 {
        b.increase_cell_size();
        assert!(b.cell_size <= 128);
    }
    assert_eq!(b.cell_size, 128);
}

#[test]
fn cell_size_never_below_floor() {
    let mut b = GridBench::new(5, 20, true, true, 1);
    b.decrease_cell_size();
    assert_eq!(b.cell_size, 16);
    for _ in 0..10 {
        b.decrease_cell_size();
        assert!(b.cell_size >= 8);
    }
    assert_eq!(b.cell_size, 8);
}

#[test]
fn col_count_uses_gap_and_padding() {
    let b = GridBench::new(5, 32, true, true, 1);
    assert_eq!(b.calculate_col_count(800), 21);
    assert_eq!(b.calculate_col_count(364), 9);
}
