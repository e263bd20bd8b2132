use stock_tracker::report::{no_quotes_notice, report_order};
use stock_tracker::series::sma_windows;

#[test]
fn failed_request_is_skipped() {
    assert_eq!(report_order(None), None);
}

#[test]
fn zero_quotes_are_skipped() {
    assert_eq!(report_order(Some(vec![])), None);
}

#[test]
fn quotes_are_read_in_time_order() {
    assert_eq!(report_order(Some(vec![300, 100, 200])), Some(vec![1, 2, 0]));
}

#[test]
fn three_quotes_end_to_end_shape() {
    // quotes (t1, 100), (t2, 110), (t3, 90) received out of order
    let timestamps = vec![1_620_000_300u64, 1_620_000_100, 1_620_000_200];
    let closes = [90.0f64, 100.0, 110.0];
    let order = report_order(Some(timestamps)).unwrap();
    let series: Vec<f64> = order.iter().map(|&i| closes[i]).collect();
    assert_eq!(series, vec![100.0, 110.0, 90.0]);
    assert_eq!(sma_windows(30, series.len()), Some(vec![]));
}

#[test]
fn notice_names_the_symbol() {
    assert_eq!(no_quotes_notice("UBER"), "No quotes found for symbol 'UBER'");
}
