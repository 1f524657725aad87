use vstd::prelude::*;

verus! {

/// A platform-neutral notification request.
///
/// The request is a plain value: it is built fresh for each notification and
/// consumed by exactly one `show` call. This layer validates nothing; a
/// backend may still reject a request it considers malformed.
#[derive(Debug, Clone)]
pub struct ToastNotification {
    /// Short headline of the notification.
    pub title: String,
    /// Body text of the notification.
    pub message: String,
    /// If present, activating the notification should open this URL.
    pub url: Option<String>,
    /// If present, an application-defined string handed verbatim to the
    /// registered activation handler when the notification is clicked.
    pub click_arguments: Option<String>,
    /// Milliseconds the notification stays visible before auto-dismissal;
    /// `None` leaves the choice to the platform ("persistent").
    pub timeout: Option<u64>,
}

/// The mathematical value of a [`ToastNotification`].
#[verifier::ext_equal]
pub ghost struct ToastNotificationView {
    pub title: Seq<char>,
    pub message: Seq<char>,
    pub url: Option<Seq<char>>,
    pub click_arguments: Option<Seq<char>>,
    pub timeout: Option<u64>,
}

impl View for ToastNotification {
    type V = ToastNotificationView;

    open spec fn view(&self) -> ToastNotificationView {
        ToastNotificationView {
            title: self.title@,
            message: self.message@,
            url: match self.url {
                Some(u) => Some(u@),
                None => None,
            },
            click_arguments: match self.click_arguments {
                Some(a) => Some(a@),
                None => None,
            },
            timeout: self.timeout,
        }
    }
}

} // verus!
