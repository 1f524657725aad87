use vstd::prelude::*;

use crate::backend::NotificationBackend;
use crate::logging::LogBuffer;
use crate::logging::LogLevel;
use crate::logging::LogRecord;
use crate::request::ToastNotification;
use crate::request::ToastNotificationView;

verus! {

broadcast use vstd::string::group_string_axioms;

/// Asks `backend` to display `notif`; the single entry point every
/// convenience function delegates to.
///
/// Notification delivery is best-effort: a backend failure never propagates
/// to the caller. The failure's cause is recorded in `log` at error severity,
/// and that record is the only observable trace. A backend that never fails
/// leaves the log untouched; one that always fails adds exactly one record.
pub fn show<B: NotificationBackend>(backend: &mut B, log: &mut LogBuffer, notif: ToastNotification)
    ensures
        final(backend).requests() == old(backend).requests().push(notif@),
        final(backend).never_fails() == old(backend).never_fails(),
        final(backend).always_fails() == old(backend).always_fails(),
        old(log)@.is_prefix_of(final(log)@),
        final(log)@.len() <= old(log)@.len() + 1,
        forall|i: int|
            old(log)@.len() <= i < final(log)@.len() ==> final(log)@[i].level == LogLevel::Error,
        old(backend).never_fails() ==> final(log)@ == old(log)@,
        old(backend).always_fails() ==> final(log)@.len() == old(log)@.len() + 1,
{
    match backend.show_notif(notif) {
        Ok(()) => {},
        Err(error) => {
            log.push(LogRecord { level: LogLevel::Error, text: error.message });
        },
    }
}

impl ToastNotification {
    /// Instance-style equivalent of [`show`]: consumes the request and asks
    /// `backend` to display it, recovering any failure into `log`.
    pub fn show<B: NotificationBackend>(self, backend: &mut B, log: &mut LogBuffer)
        ensures
            final(backend).requests() == old(backend).requests().push(self@),
            final(backend).never_fails() == old(backend).never_fails(),
            final(backend).always_fails() == old(backend).always_fails(),
            old(log)@.is_prefix_of(final(log)@),
            final(log)@.len() <= old(log)@.len() + 1,
            forall|i: int|
                old(log)@.len() <= i < final(log)@.len() ==> final(log)@[i].level
                    == LogLevel::Error,
            old(backend).never_fails() ==> final(log)@ == old(log)@,
            old(backend).always_fails() ==> final(log)@.len() == old(log)@.len() + 1,
    {
        show(backend, log, self)
    }
}

/// The request a persistent notification is built from: owned copies of the
/// given texts, no URL and no click arguments unless stated, and no timeout,
/// so the notification is not auto-dismissed.
pub open spec fn persistent_request(
    title: Seq<char>,
    message: Seq<char>,
    url: Option<Seq<char>>,
    click_arguments: Option<Seq<char>>,
) -> ToastNotificationView {
    ToastNotificationView { title, message, url, click_arguments, timeout: None }
}

/// Shows a persistent notification whose activation should open `url`.
pub fn persistent_toast_notification_with_click_to_open_url<B: NotificationBackend>(
    backend: &mut B,
    log: &mut LogBuffer,
    title: &str,
    message: &str,
    url: &str,
)
    ensures
        final(backend).requests() == old(backend).requests().push(
            persistent_request(title@, message@, Some(url@), None),
        ),
        final(backend).never_fails() == old(backend).never_fails(),
        final(backend).always_fails() == old(backend).always_fails(),
        old(log)@.is_prefix_of(final(log)@),
        final(log)@.len() <= old(log)@.len() + 1,
        forall|i: int|
            old(log)@.len() <= i < final(log)@.len() ==> final(log)@[i].level == LogLevel::Error,
        old(backend).never_fails() ==> final(log)@ == old(log)@,
        old(backend).always_fails() ==> final(log)@.len() == old(log)@.len() + 1,
{
    let notif = ToastNotification {
        title: title.to_string(),
        message: message.to_string(),
        url: Some(url.to_string()),
        click_arguments: None,
        timeout: None,
    };
    proof {
        assert(notif@ =~= persistent_request(title@, message@, Some(url@), None));
    }
    show(backend, log, notif);
}

/// Shows a persistent notification whose activation hands `arguments` back to
/// the registered activation handler.
pub fn persistent_toast_notification_with_click_arguments<B: NotificationBackend>(
    backend: &mut B,
    log: &mut LogBuffer,
    title: &str,
    message: &str,
    arguments: &str,
)
    ensures
        final(backend).requests() == old(backend).requests().push(
            persistent_request(title@, message@, None, Some(arguments@)),
        ),
        final(backend).never_fails() == old(backend).never_fails(),
        final(backend).always_fails() == old(backend).always_fails(),
        old(log)@.is_prefix_of(final(log)@),
        final(log)@.len() <= old(log)@.len() + 1,
        forall|i: int|
            old(log)@.len() <= i < final(log)@.len() ==> final(log)@[i].level == LogLevel::Error,
        old(backend).never_fails() ==> final(log)@ == old(log)@,
        old(backend).always_fails() ==> final(log)@.len() == old(log)@.len() + 1,
{
    let notif = ToastNotification {
        title: title.to_string(),
        message: message.to_string(),
        url: None,
        click_arguments: Some(arguments.to_string()),
        timeout: None,
    };
    proof {
        assert(notif@ =~= persistent_request(title@, message@, None, Some(arguments@)));
    }
    show(backend, log, notif);
}

/// Shows a persistent notification with no activation behaviour attached.
pub fn persistent_toast_notification<B: NotificationBackend>(
    backend: &mut B,
    log: &mut LogBuffer,
    title: &str,
    message: &str,
)
    ensures
        final(backend).requests() == old(backend).requests().push(
            persistent_request(title@, message@, None, None),
        ),
        final(backend).never_fails() == old(backend).never_fails(),
        final(backend).always_fails() == old(backend).always_fails(),
        old(log)@.is_prefix_of(final(log)@),
        final(log)@.len() <= old(log)@.len() + 1,
        forall|i: int|
            old(log)@.len() <= i < final(log)@.len() ==> final(log)@[i].level == LogLevel::Error,
        old(backend).never_fails() ==> final(log)@ == old(log)@,
        old(backend).always_fails() ==> final(log)@.len() == old(log)@.len() + 1,
{
    let notif = ToastNotification {
        title: title.to_string(),
        message: message.to_string(),
        url: None,
        click_arguments: None,
        timeout: None,
    };
    proof {
        assert(notif@ =~= persistent_request(title@, message@, None, None));
    }
    show(backend, log, notif);
}

} // verus!
