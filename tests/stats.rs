use bevy_framepace::{FramePaceStats, RingBuffer, DEFAULT_HISTORY};

#[test]
fn ring_buffer_evicts_oldest_first() {
    let mut r: RingBuffer<u64> = RingBuffer::new(3);
    assert_eq!(r.push(1), None);
    assert_eq!(r.push(2), None);
    assert_eq!(r.push(3), None);
    assert_eq!(r.len(), 3);
    assert_eq!(r.push(4), Some(1));
    assert_eq!(r.push(5), Some(2));
    assert_eq!(r.get(0), 3);
    assert_eq!(r.get(1), 4);
    assert_eq!(r.get(2), 5);
    assert_eq!(r.last(), Some(5));
    assert_eq!(r.capacity(), 3);
}

#[test]
fn ring_buffer_empty_has_no_last() {
    let r: RingBuffer<i64> = RingBuffer::new(1);
    assert_eq!(r.len(), 0);
    assert_eq!(r.last(), None);
}

#[test]
fn empty_stats_read_as_zero() {
    let s = FramePaceStats::default();
    assert_eq!(s.capacity(), DEFAULT_HISTORY);
    assert_eq!(s.len(), 0);
    assert_eq!(s.last_frametime(), 0);
    assert_eq!(s.last_deviation(), 0);
    assert_eq!(s.average_frametime(), 0);
    assert_eq!(s.deviation_sum(), 0);
    assert_eq!(s.last_deviation_delta(), 0);
    assert_eq!(s.last_adjustment(), 0);
}

#[test]
fn capacity_is_brought_into_range() {
    assert_eq!(FramePaceStats::new(0).capacity(), 1);
    assert_eq!(FramePaceStats::new(7).capacity(), 7);
    assert_eq!(FramePaceStats::new(usize::MAX).capacity(), 4096);
}

#[test]
fn deviation_sum_tracks_contents_through_wraparound() {
    let mut s = FramePaceStats::new(4);
    let deviations: [i64; 10] = [5, -3, 12, 0, -40, 7, 7, 100, -1, 9];
    for (k, d) in deviations.iter().enumerate() {
        s.record(1_000 + k as u64, *d);
        let contents = s.deviation_history();
        let exact: i128 = contents.iter().map(|x| *x as i128).sum();
        assert_eq!(s.deviation_sum(), exact);
        assert!(contents.len() <= 4);
    }
    assert_eq!(s.deviation_history(), vec![7, 100, -1, 9]);
    assert_eq!(s.deviation_sum(), 115);
    assert_eq!(s.frametime_history(), vec![1_006, 1_007, 1_008, 1_009]);
}

#[test]
fn deviation_sum_with_extreme_values() {
    let mut s = FramePaceStats::new(3);
    s.record(1, i64::MAX);
    s.record(1, i64::MAX);
    s.record(1, i64::MAX);
    assert_eq!(s.deviation_sum(), 3 * i64::MAX as i128);
    s.record(1, i64::MIN);
    assert_eq!(s.deviation_sum(), 2 * i64::MAX as i128 + i64::MIN as i128);
}

#[test]
fn accessors_read_newest_samples() {
    let mut s = FramePaceStats::new(3);
    s.record(10, -3);
    assert_eq!(s.last_deviation_delta(), 0);
    s.record(20, 5);
    assert_eq!(s.last_frametime(), 20);
    assert_eq!(s.last_deviation(), 5);
    assert_eq!(s.last_deviation_delta(), 8);
    s.record(31, 1);
    assert_eq!(s.average_frametime(), 20);
    s.record(41, -2);
    assert_eq!(s.average_frametime(), 30);
    assert_eq!(s.last_deviation_delta(), -3);
    assert_eq!(s.deviation_sum(), 4);
}

#[test]
fn average_of_largest_frametimes() {
    let mut s = FramePaceStats::new(2);
    s.record(u64::MAX, 0);
    s.record(u64::MAX, 0);
    assert_eq!(s.average_frametime(), u64::MAX);
}

#[test]
fn last_adjustment_is_kept() {
    let mut s = FramePaceStats::new(2);
    s.set_last_adjustment(-1234);
    assert_eq!(s.last_adjustment(), -1234);
    s.record(5, 5);
    assert_eq!(s.last_adjustment(), -1234);
}
