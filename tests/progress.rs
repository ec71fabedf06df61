use stu::progress::handle_loading_size;

#[test]
fn progress_reports_percent_and_sizes() {
    let progress = handle_loading_size(10_000_000);
    assert_eq!(progress.decimal_places(), 0);
    assert_eq!(
        progress.report(5_000_000),
        Some(" 50% downloaded (5 MB out of 10 MB)".to_string())
    );
    assert_eq!(
        progress.report(10_000_000),
        Some("100% downloaded (10 MB out of 10 MB)".to_string())
    );
    assert_eq!(
        progress.report(0),
        Some("  0% downloaded (0 B out of 10 MB)".to_string())
    );
}

#[test]
fn progress_uses_one_decimal_above_a_gigabyte() {
    let progress = handle_loading_size(2_000_000_000);
    assert_eq!(progress.decimal_places(), 1);
    assert_eq!(
        progress.report(1_500_000_000),
        Some(" 75% downloaded (1.5 GB out of 2 GB)".to_string())
    );
    let exact = handle_loading_size(1_000_000_000);
    assert_eq!(exact.decimal_places(), 0);
}

#[test]
fn small_downloads_report_nothing() {
    let progress = handle_loading_size(9_999_999);
    assert_eq!(progress.report(5_000_000), None);
}
