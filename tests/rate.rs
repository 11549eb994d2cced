use grid_bench::rate::{FpsCounter, FpsView};

#[test]
fn rate_zero_until_two_samples() {
    let mut c = FpsCounter::new();
    assert_eq!(c.current_rate_millihertz(), 0);
    assert_eq!(c.rate_parts(), None);
    c.record(1_000);
    assert_eq!(c.current_rate_millihertz(), 0);
    assert_eq!(c.rate_parts(), None);
}

#[test]
fn rate_of_two_samples_is_reciprocal() {
    let mut c = FpsCounter::new();
    c.record(0);
    c.record(16_000_000);
    assert_eq!(c.rate_parts(), Some((1, 16_000_000)));
    assert_eq!(c.current_rate_millihertz(), 62_500);
}

#[test]
fn rate_of_equal_times_is_zero() {
    let mut c = FpsCounter::new();
    c.record(5);
    c.record(5);
    assert_eq!(c.current_rate_millihertz(), 0);
}

#[test]
fn window_keeps_sixty_latest() {
    let mut c = FpsCounter::new();
    for k in 0..100u64 {
        c.record(k * 10);
        assert!(c.times.len() <= 60);
    }
    assert_eq!(c.times.len(), 60);
    let kept: Vec<u64> = c.times.iter().copied().collect();
    let expected: Vec<u64> = (40..100u64).map(|k| k * 10).collect();
    assert_eq!(kept, expected);
    assert_eq!(c.rate_parts(), Some((59, 590)));
}

#[test]
fn view_counters_are_independent() {
    let mut v = FpsView::new();
    v.render_fps.record(1);
    assert_eq!(v.render_fps.times.len(), 1);
    assert_eq!(v.frame_fps.times.len(), 0);
}
