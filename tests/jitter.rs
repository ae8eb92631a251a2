use nice_path::jitter::{instance_range, jitter_samples, ConfigError, SampleMode, ViewSize, FULL_COVERAGE};

#[test]
fn jitter_table_has_six_samples_per_mode() {
    let table = jitter_samples();
    assert_eq!(table.len(), 12);
    assert!(table[..6].iter().all(|s| s.mode == SampleMode::Fill));
    assert!(table[6..].iter().all(|s| s.mode == SampleMode::Curve));
    assert!(table.iter().all(|s| s.offset_x.abs() < 12 && s.offset_y.abs() < 12));
    assert_eq!(table[0].offset_x, -1);
    assert_eq!(table[0].offset_y, -5);
    assert_eq!(table[11].offset_x, 9);
    assert_eq!(table[11].offset_y, 3);
}

#[test]
fn full_coverage_saturates_exactly() {
    let table = jitter_samples();
    for mode in [SampleMode::Fill, SampleMode::Curve] {
        let total: u32 = table.iter().filter(|s| s.mode == mode).map(|s| s.weight as u32).sum();
        assert_eq!(total, FULL_COVERAGE as u32);
        let mut channel: u8 = 0;
        for s in table.iter().filter(|s| s.mode == mode) {
            channel = channel.checked_add(s.weight).unwrap();
        }
        assert_eq!(channel, 255);
    }
}

#[test]
fn instance_ranges_split_the_table() {
    let table = jitter_samples();
    assert_eq!(instance_range(SampleMode::Fill), (0, 6));
    assert_eq!(instance_range(SampleMode::Curve), (6, 12));
    for mode in [SampleMode::Fill, SampleMode::Curve] {
        let (lo, hi) = instance_range(mode);
        assert!(table[lo as usize..hi as usize].iter().all(|s| s.mode == mode));
    }
}

#[test]
fn empty_viewport_is_refused() {
    assert_eq!(ViewSize::new(0, 10), Err(ConfigError::EmptyViewport));
    assert_eq!(ViewSize::new(10, 0), Err(ConfigError::EmptyViewport));
    let v = ViewSize::new(640, 480).unwrap();
    assert_eq!(v.get_width(), 640);
    assert_eq!(v.get_height(), 480);
}
