use toast_notification::FailingBackend;
use toast_notification::LogBuffer;
use toast_notification::LogLevel;
use toast_notification::NopBackend;
use toast_notification::RecordingBackend;
use toast_notification::ToastNotification;
use toast_notification::persistent_toast_notification;
use toast_notification::persistent_toast_notification_with_click_arguments;
use toast_notification::persistent_toast_notification_with_click_to_open_url;
use toast_notification::show;

#[test]
fn persistent_sets_no_url_no_arguments_no_timeout() {
    let mut backend = RecordingBackend::new();
    let mut log = LogBuffer::new();
    persistent_toast_notification(&mut backend, &mut log, "Build", "Done");
    assert_eq!(backend.seen.len(), 1);
    assert_eq!(backend.seen[0].title, "Build");
    assert_eq!(backend.seen[0].message, "Done");
    assert_eq!(backend.seen[0].url, None);
    assert_eq!(backend.seen[0].click_arguments, None);
    assert_eq!(backend.seen[0].timeout, None);
    assert_eq!(log.len(), 0);
}

#[test]
fn click_to_open_url_sets_url_only() {
    let mut backend = RecordingBackend::new();
    let mut log = LogBuffer::new();
    persistent_toast_notification_with_click_to_open_url(
        &mut backend,
        &mut log,
        "Update",
        "A new release is out",
        "https://example.com/release",
    );
    assert_eq!(backend.seen.len(), 1);
    assert_eq!(backend.seen[0].title, "Update");
    assert_eq!(backend.seen[0].message, "A new release is out");
    assert_eq!(
        backend.seen[0].url.as_deref(),
        Some("https://example.com/release")
    );
    assert_eq!(backend.seen[0].click_arguments, None);
    assert_eq!(backend.seen[0].timeout, None);
}

#[test]
fn click_arguments_sets_arguments_only() {
    let mut backend = RecordingBackend::new();
    let mut log = LogBuffer::new();
    persistent_toast_notification_with_click_arguments(
        &mut backend,
        &mut log,
        "Job",
        "Finished",
        "job=42",
    );
    assert_eq!(backend.seen.len(), 1);
    assert_eq!(backend.seen[0].title, "Job");
    assert_eq!(backend.seen[0].message, "Finished");
    assert_eq!(backend.seen[0].url, None);
    assert_eq!(backend.seen[0].click_arguments.as_deref(), Some("job=42"));
    assert_eq!(backend.seen[0].timeout, None);
}

#[test]
fn failing_backend_leaves_one_error_record_and_returns_normally() {
    let mut backend = FailingBackend::new();
    let mut log = LogBuffer::new();
    let request = ToastNotification {
        title: "Build".to_string(),
        message: "Done".to_string(),
        url: None,
        click_arguments: None,
        timeout: None,
    };
    show(&mut backend, &mut log, request);
    assert_eq!(log.len(), 1);
    assert_eq!(log.record(0).level, LogLevel::Error);
    assert!(!log.record(0).text.is_empty());
}

#[test]
fn failing_backend_adds_one_record_per_show() {
    let mut backend = FailingBackend::new();
    let mut log = LogBuffer::new();
    persistent_toast_notification(&mut backend, &mut log, "a", "b");
    persistent_toast_notification(&mut backend, &mut log, "c", "d");
    assert_eq!(log.len(), 2);
    assert_eq!(log.record(0).level, LogLevel::Error);
    assert_eq!(log.record(1).level, LogLevel::Error);
}

#[test]
fn nop_backend_always_succeeds_without_log_records() {
    let mut backend = NopBackend::new();
    let mut log = LogBuffer::new();
    persistent_toast_notification(&mut backend, &mut log, "Build", "Done");
    persistent_toast_notification_with_click_to_open_url(
        &mut backend,
        &mut log,
        "t",
        "m",
        "https://example.com",
    );
    persistent_toast_notification_with_click_arguments(&mut backend, &mut log, "t", "m", "args");
    assert_eq!(log.len(), 0);
}

#[test]
fn show_method_matches_free_function() {
    let mut backend = RecordingBackend::new();
    let mut log = LogBuffer::new();
    let request = ToastNotification {
        title: "Reminder".to_string(),
        message: "Stand up".to_string(),
        url: None,
        click_arguments: None,
        timeout: Some(5000),
    };
    request.show(&mut backend, &mut log);
    assert_eq!(backend.seen.len(), 1);
    assert_eq!(backend.seen[0].title, "Reminder");
    assert_eq!(backend.seen[0].timeout, Some(5000));
    assert_eq!(log.len(), 0);
}

#[test]
fn empty_strings_are_passed_through_unvalidated() {
    let mut backend = RecordingBackend::new();
    let mut log = LogBuffer::new();
    persistent_toast_notification(&mut backend, &mut log, "", "");
    assert_eq!(backend.seen.len(), 1);
    assert_eq!(backend.seen[0].title, "");
    assert_eq!(backend.seen[0].message, "");
    assert_eq!(log.len(), 0);
}
