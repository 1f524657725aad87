use vstd::prelude::*;

use crate::request::ToastNotification;
use crate::request::ToastNotificationView;

verus! {

/// The failure a backend reports when it cannot display a notification.
///
/// One opaque kind suffices: the facade never exposes the error to its own
/// callers, it only records the human-readable cause.
#[derive(Debug, Clone)]
pub struct NotificationError {
    /// Human-readable description of what went wrong.
    pub message: String,
}

/// The contract every platform backend satisfies.
///
/// `requests` is the backend's history: every request it has been asked to
/// display, oldest first. Success means the platform was asked to display
/// the notification, not that the user saw it (fire-and-forget).
///
/// `never_fails` and `always_fails` classify a backend's outcome where it is
/// known in advance: the fallback backend accepts everything, and a test stub
/// may reject everything. A real platform backend leaves both false.
pub trait NotificationBackend: Sized {
    /// Every request this backend has been asked to display, oldest first.
    spec fn requests(&self) -> Seq<ToastNotificationView>;

    /// True of a backend that accepts every request.
    spec fn never_fails(&self) -> bool;

    /// True of a backend that rejects every request.
    spec fn always_fails(&self) -> bool;

    /// Asks the platform to display `notif`.
    fn show_notif(&mut self, notif: ToastNotification) -> (result: Result<
        (),
        NotificationError,
    >)
        ensures
            final(self).requests() == old(self).requests().push(notif@),
            final(self).never_fails() == old(self).never_fails(),
            final(self).always_fails() == old(self).always_fails(),
            old(self).never_fails() ==> result is Ok,
            old(self).always_fails() ==> result is Err,
    ;
}

/// The fallback backend: used where no platform backend is available or
/// notifications are disabled. It accepts every request and displays nothing,
/// so the facade's promise that showing a notification never fails observably
/// holds uniformly on every configuration.
pub struct NopBackend {
    seen: Ghost<Seq<ToastNotificationView>>,
}

impl NopBackend {
    /// A fresh fallback backend with an empty history.
    pub fn new() -> (backend: NopBackend)
        ensures
            backend.requests() == Seq::<ToastNotificationView>::empty(),
    {
        NopBackend { seen: Ghost(Seq::empty()) }
    }
}

impl NotificationBackend for NopBackend {
    closed spec fn requests(&self) -> Seq<ToastNotificationView> {
        self.seen@
    }

    open spec fn never_fails(&self) -> bool {
        true
    }

    open spec fn always_fails(&self) -> bool {
        false
    }

    fn show_notif(&mut self, notif: ToastNotification) -> (result: Result<
        (),
        NotificationError,
    >) {
        self.seen = Ghost(self.seen@.push(notif@));
        Ok(())
    }
}

/// A backend stub that rejects every request. It exercises the facade's
/// recovery path: a caller of `show` must observe nothing but a log record.
pub struct FailingBackend {
    seen: Ghost<Seq<ToastNotificationView>>,
}

impl FailingBackend {
    /// A fresh failing backend with an empty history.
    pub fn new() -> (backend: FailingBackend)
        ensures
            backend.requests() == Seq::<ToastNotificationView>::empty(),
    {
        FailingBackend { seen: Ghost(Seq::empty()) }
    }
}

impl NotificationBackend for FailingBackend {
    closed spec fn requests(&self) -> Seq<ToastNotificationView> {
        self.seen@
    }

    open spec fn never_fails(&self) -> bool {
        false
    }

    open spec fn always_fails(&self) -> bool {
        true
    }

    fn show_notif(&mut self, notif: ToastNotification) -> (result: Result<
        (),
        NotificationError,
    >) {
        self.seen = Ghost(self.seen@.push(notif@));
        Err(NotificationError { message: "the notification service is unavailable".to_string() })
    }
}

/// A backend stub that stores every request it is asked to display, so a
/// caller can inspect exactly what would have reached the platform.
pub struct RecordingBackend {
    /// Every request handed to `show_notif`, oldest first.
    pub seen: Vec<ToastNotification>,
}

impl RecordingBackend {
    /// A fresh recording backend with an empty history.
    pub fn new() -> (backend: RecordingBackend)
        ensures
            backend.requests() == Seq::<ToastNotificationView>::empty(),
    {
        let backend = RecordingBackend { seen: Vec::new() };
        proof {
            assert(backend.requests() =~= Seq::<ToastNotificationView>::empty());
        }
        backend
    }
}

impl NotificationBackend for RecordingBackend {
    open spec fn requests(&self) -> Seq<ToastNotificationView> {
        self.seen@.map_values(|t: ToastNotification| t@)
    }

    open spec fn never_fails(&self) -> bool {
        true
    }

    open spec fn always_fails(&self) -> bool {
        false
    }

    fn show_notif(&mut self, notif: ToastNotification) -> (result: Result<
        (),
        NotificationError,
    >) {
        let ghost prev = self.requests();
        let ghost notif_view = notif@;
        self.seen.push(notif);
        proof {
            assert(self.requests() =~= prev.push(notif_view));
        }
        Ok(())
    }
}

/// The fallback backend accepts every request: a `show` through it succeeds
/// and leaves no error record.
pub proof fn lemma_nop_backend_never_fails(backend: NopBackend)
    ensures
        backend.never_fails(),
        !backend.always_fails(),
{
}

/// The failing stub rejects every request: a `show` through it recovers the
/// failure and leaves exactly one error record.
pub proof fn lemma_failing_backend_always_fails(backend: FailingBackend)
    ensures
        backend.always_fails(),
        !backend.never_fails(),
{
}

} // verus!
