use payload_bridge::progress::{
    ExtractionProgress, ExtractionStatus, Percentage, STATUS_COMPLETED, STATUS_IN_PROGRESS,
    STATUS_STARTED, STATUS_WARNING,
};

fn as_float(percentage: Percentage) -> f64 {
    (percentage.numerator as f64 / percentage.denominator as f64) * 100.0
}

#[test]
fn start_event_reports_nothing_done() {
    let event = ExtractionProgress::started("system", 120);
    assert_eq!(event.partition_name, "system");
    assert_eq!(event.current_operation, 0);
    assert_eq!(event.total_operations, 120);
    assert_eq!(event.status, ExtractionStatus::Started);
    assert_eq!(as_float(event.percentage), 0.0);
}

#[test]
fn progress_event_reports_the_share_done() {
    let event = ExtractionProgress::in_progress("system", 30, 120);
    assert_eq!(event.partition_name, "system");
    assert_eq!(event.current_operation, 30);
    assert_eq!(event.total_operations, 120);
    assert_eq!(event.status, ExtractionStatus::InProgress);
    assert_eq!(event.percentage, Percentage { numerator: 30, denominator: 120 });
    assert_eq!(as_float(event.percentage), 25.0);
}

#[test]
fn percentage_is_zero_without_operations() {
    for current in [0u64, 1, 7, u64::MAX] {
        let event = ExtractionProgress::in_progress("boot", current, 0);
        assert_eq!(event.percentage.numerator, 0);
        assert!(event.percentage.denominator > 0);
        assert_eq!(as_float(event.percentage), 0.0);
        assert_eq!(as_float(Percentage::compute(current, 0)), 0.0);
    }
    assert_eq!(as_float(ExtractionProgress::started("boot", 0).percentage), 0.0);
    assert_eq!(as_float(ExtractionProgress::completed("boot", 0).percentage), 0.0);
    let warning = ExtractionProgress::warning("boot", 3, "odd".to_string());
    assert_eq!(warning.total_operations, 0);
    assert_eq!(as_float(warning.percentage), 0.0);
}

#[test]
fn percentage_is_the_exact_fraction() {
    assert_eq!(Percentage::compute(1, 3), Percentage { numerator: 1, denominator: 3 });
    assert_eq!(as_float(Percentage::compute(1, 4)), 25.0);
    assert_eq!(as_float(Percentage::compute(4, 4)), 100.0);
    assert_eq!(as_float(Percentage::compute(0, 9)), 0.0);
    assert_eq!(
        Percentage::compute(u64::MAX, u64::MAX),
        Percentage { numerator: u64::MAX, denominator: u64::MAX }
    );
}

#[test]
fn complete_event_reports_everything_done() {
    let event = ExtractionProgress::completed("vendor", 64);
    assert_eq!(event.current_operation, 64);
    assert_eq!(event.total_operations, 64);
    assert_eq!(event.status, ExtractionStatus::Completed);
    assert_eq!(as_float(event.percentage), 100.0);
    assert_eq!(as_float(ExtractionProgress::completed("one", 1).percentage), 100.0);
    assert_eq!(as_float(ExtractionProgress::completed("all", u64::MAX).percentage), 100.0);
}

#[test]
fn complete_event_without_operations_reports_zero() {
    let event = ExtractionProgress::completed("empty", 0);
    assert_eq!(event.current_operation, 0);
    assert_eq!(event.total_operations, 0);
    assert_eq!(event.status, ExtractionStatus::Completed);
    assert_eq!(event.percentage.numerator, 0);
    assert!(event.percentage.denominator > 0);
    assert_eq!(as_float(event.percentage), 0.0);
}

#[test]
fn warning_event_carries_index_and_message() {
    let event = ExtractionProgress::warning("product", 17, "hash mismatch".to_string());
    assert_eq!(event.partition_name, "product");
    assert_eq!(event.current_operation, 17);
    assert_eq!(event.total_operations, 0);
    assert_eq!(as_float(event.percentage), 0.0);
    assert_eq!(
        event.status,
        ExtractionStatus::Warning { operation_index: 17, message: "hash mismatch".to_string() }
    );
}

#[test]
fn statuses_have_their_codes() {
    assert_eq!(ExtractionStatus::Started.code(), 0);
    assert_eq!(ExtractionStatus::InProgress.code(), 1);
    assert_eq!(ExtractionStatus::Completed.code(), 2);
    assert_eq!(
        ExtractionStatus::Warning { operation_index: 0, message: String::new() }.code(),
        3
    );
    assert_eq!(
        [STATUS_STARTED, STATUS_IN_PROGRESS, STATUS_COMPLETED, STATUS_WARNING],
        [0, 1, 2, 3]
    );
}
