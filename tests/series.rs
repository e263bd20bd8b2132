use stock_tracker::series::{chronological_order, sma_windows};

#[test]
fn order_of_empty_series_is_empty() {
    assert_eq!(chronological_order(&vec![]), Vec::<usize>::new());
}

#[test]
fn order_sorts_by_timestamp() {
    assert_eq!(chronological_order(&vec![30, 10, 20]), vec![1, 2, 0]);
}

#[test]
fn order_keeps_equal_timestamps_in_received_order() {
    assert_eq!(chronological_order(&vec![5, 3, 5, 3, 1]), vec![4, 1, 3, 0, 2]);
}

#[test]
fn order_of_sorted_input_is_identity() {
    assert_eq!(chronological_order(&vec![1, 2, 2, 9]), vec![0, 1, 2, 3]);
}

#[test]
fn order_handles_extreme_timestamps() {
    assert_eq!(chronological_order(&vec![u64::MAX, 0, u64::MAX - 1]), vec![1, 2, 0]);
}

#[test]
fn sma_not_applicable_for_small_width_or_empty_series() {
    for len in 0..5 {
        assert_eq!(sma_windows(0, len), None);
        assert_eq!(sma_windows(1, len), None);
    }
    for n in 0..40 {
        assert_eq!(sma_windows(n, 0), None);
    }
}

#[test]
fn sma_width_three_over_four_samples() {
    assert_eq!(sma_windows(3, 4), Some(vec![(0, 3), (1, 4)]));
}

#[test]
fn sma_window_longer_than_series_gives_no_window() {
    assert_eq!(sma_windows(30, 3), Some(vec![]));
}

#[test]
fn sma_window_equal_to_series_gives_one_window() {
    assert_eq!(sma_windows(2, 2), Some(vec![(0, 2)]));
}

#[test]
fn sma_window_count_is_length_minus_width_plus_one() {
    let w = sma_windows(30, 100).unwrap();
    assert_eq!(w.len(), 71);
    assert_eq!(w[0], (0, 30));
    assert_eq!(w[70], (70, 100));
}
