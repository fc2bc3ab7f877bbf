use audido::spectrum::{display_bin_range, latest_frame, SampleRing, DEFAULT_SPECTRUM_BIN_SIZE, SPECTRUM_FFT_SIZE};

#[test]
fn ring_starts_filled_and_keeps_the_latest_samples_in_order() {
    let mut ring = SampleRing::new(4, 0u32);
    assert_eq!(ring.ordered(), vec![0, 0, 0, 0]);
    for x in 1..=6u32 {
        ring.push(x);
    }
    assert_eq!(ring.ordered(), vec![3, 4, 5, 6]);
    ring.push(7);
    assert_eq!(ring.ordered(), vec![4, 5, 6, 7]);
}

#[test]
fn ring_asks_for_an_analysis_every_quarter_window() {
    let mut ring = SampleRing::new(8, 0i64);
    ring.push(1);
    assert!(!ring.take_hop());
    ring.push(2);
    assert!(ring.take_hop());
    assert!(!ring.take_hop());
    for x in 3..=5i64 {
        ring.push(x);
    }
    assert!(ring.take_hop());
    assert!(!ring.take_hop());
}

#[test]
fn display_bins_group_fft_bins_linearly() {
    let fft_bins = SPECTRUM_FFT_SIZE / 2 + 1;
    assert_eq!(display_bin_range(0, fft_bins, DEFAULT_SPECTRUM_BIN_SIZE), (0, 1));
    assert_eq!(display_bin_range(1, fft_bins, DEFAULT_SPECTRUM_BIN_SIZE), (1, 2));
    assert_eq!(display_bin_range(2047, fft_bins, DEFAULT_SPECTRUM_BIN_SIZE), (2047, 2049));
    assert_eq!(display_bin_range(0, 3, 2), (0, 1));
    assert_eq!(display_bin_range(1, 3, 2), (1, 3));
}

#[test]
fn more_display_bins_than_fft_bins_read_at_least_one_each() {
    let ranges: Vec<(usize, usize)> = (0..4).map(|i| display_bin_range(i, 3, 4)).collect();
    assert_eq!(ranges, vec![(0, 1), (0, 1), (1, 2), (2, 3)]);
    for k in 0..3 {
        assert!(ranges.iter().any(|&(start, end)| start <= k && k < end));
    }
}

#[test]
fn latest_frame_is_the_last_complete_frame() {
    let staging = vec![1, 2, 3, 4, 5, 6];
    assert_eq!(latest_frame(&staging, 2), Some(vec![5, 6]));
    assert_eq!(latest_frame(&staging, 6), Some(vec![1, 2, 3, 4, 5, 6]));
    assert_eq!(latest_frame(&staging, 4), Some(vec![1, 2, 3, 4]));
    assert_eq!(latest_frame(&vec![0, 1, 2, 3, 4], 2), Some(vec![2, 3]));
    assert_eq!(latest_frame(&staging, 7), None);
    assert_eq!(latest_frame(&Vec::<i32>::new(), 1), None);
}
