use lazy_learn::{Diagnostic, Stream};

#[test]
fn started_notice_names_the_process_id() {
    let notice = Diagnostic::started(4321);
    assert_eq!(notice.stream, Stream::Output);
    assert_eq!(notice.text, "Backend started with PID: 4321");
}

#[test]
fn started_notice_for_extreme_process_ids() {
    assert_eq!(Diagnostic::started(0).text, "Backend started with PID: 0");
    assert_eq!(Diagnostic::started(u32::MAX).text, "Backend started with PID: 4294967295");
}

#[test]
fn launch_failure_is_a_warning_with_the_reason() {
    let notice = Diagnostic::launch_failed("No such file or directory (os error 2)");
    assert_eq!(notice.stream, Stream::Error);
    assert_eq!(
        notice.text,
        "Failed to start backend: No such file or directory (os error 2). \
         Frontend will connect when backend is manually started."
    );
}

#[test]
fn launch_failure_with_an_empty_reason() {
    let notice = Diagnostic::launch_failed("");
    assert_eq!(
        notice.text,
        "Failed to start backend: . Frontend will connect when backend is manually started."
    );
}

#[test]
fn terminated_notice_is_fixed() {
    let notice = Diagnostic::terminated();
    assert_eq!(notice.stream, Stream::Output);
    assert_eq!(notice.text, "Backend process terminated.");
}
