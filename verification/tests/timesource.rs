use atm0130::DummyTimesource;

#[test]
fn dummy_timesource_reports_the_epoch() {
    let ts = DummyTimesource::default().get_timestamp();
    assert_eq!(ts.year_since_1970, 0);
    assert_eq!(ts.zero_indexed_month, 0);
    assert_eq!(ts.zero_indexed_day, 0);
    assert_eq!(ts.hours, 0);
    assert_eq!(ts.minutes, 0);
    assert_eq!(ts.seconds, 0);
}
