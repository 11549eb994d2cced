use grid_bench::diagnostics::{csv_header, csv_row, FrameLog, FrameRecord};

fn record(frame: u64) -> FrameRecord {
    FrameRecord {
        frame_number: frame,
        paint_fibers: 1,
        paint_replayed_subtrees: 2,
        prepaint_fibers: 3,
        prepaint_replayed_subtrees: 4,
        mutated_pool_segments: 5,
        total_pool_segments: 6,
        hitboxes_in_snapshot: 7,
        hitboxes_snapshot_rebuilt: 8,
        estimated_instance_upload_bytes: 1_234_567,
        quads: 10,
        monochrome_sprites: 11,
        polychrome_sprites: 0,
    }
}

#[test]
fn header_has_thirteen_columns_in_order() {
    let h = csv_header();
    let cols: Vec<&str> = h.split(',').collect();
    assert_eq!(cols.len(), 13);
    assert_eq!(cols[0], "frame");
    assert_eq!(cols[9], "upload_bytes");
    assert_eq!(cols[12], "poly_sprites");
}

#[test]
fn row_is_fields_in_order() {
    assert_eq!(csv_row(&record(42)), "42,1,2,3,4,5,6,7,8,1234567,10,11,0");
    assert_eq!(csv_row(&record(u64::MAX)).split(',').next(), Some("18446744073709551615"));
}

#[test]
fn header_written_once_over_many_emissions() {
    let mut log = FrameLog::new();
    let mut file: Vec<String> = Vec::new();
    for n in 0..5u64 {
        let w = log.emit(&record(n));
        assert_eq!(w.start_new_file, n == 0);
        if w.start_new_file {
            file.clear();
        }
        file.extend(w.lines);
    }
    assert_eq!(file.len(), 6);
    assert_eq!(file.iter().filter(|l| **l == csv_header()).count(), 1);
    assert_eq!(file[0], csv_header());
    assert_eq!(file[3], "2,1,2,3,4,5,6,7,8,1234567,10,11,0");
}
