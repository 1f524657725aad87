//! A platform-neutral facade for desktop "toast" notifications.
//!
//! The crate defines a small notification request type, a backend contract
//! that every platform implementation satisfies, a write-once slot for the
//! activation (click) handler, and a `show` facade that never propagates a
//! backend failure to its caller: failures become diagnostic records in a
//! [`LogBuffer`] that the embedding application forwards to its logger.

mod activation;
mod backend;
mod facade;
mod logging;
mod request;

pub use activation::ActivationHandler;
pub use activation::HandlerSlot;
pub use activation::RecordingHandler;
pub use activation::dispatch_toast_activation;
pub use activation::set_toast_activation_handler;
pub use backend::FailingBackend;
pub use backend::NopBackend;
pub use backend::NotificationBackend;
pub use backend::NotificationError;
pub use backend::RecordingBackend;
pub use backend::lemma_failing_backend_always_fails;
pub use backend::lemma_nop_backend_never_fails;
pub use facade::persistent_request;
pub use facade::persistent_toast_notification;
pub use facade::persistent_toast_notification_with_click_arguments;
pub use facade::persistent_toast_notification_with_click_to_open_url;
pub use facade::show;
pub use logging::LogBuffer;
pub use logging::LogLevel;
pub use logging::LogRecord;
pub use logging::LogRecordView;
pub use request::ToastNotification;
pub use request::ToastNotificationView;
