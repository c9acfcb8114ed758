//! Notifications: the toasts that pages queue, and how each is shown.

use vstd::prelude::*;

verus! {

/// The kind of a notification.
#[derive(Clone, Copy, Debug, PartialEq, Eq, Structural)]
pub enum NotificationType {
    Warn,
    Success,
    Error,
}

/// One queued notification.
#[derive(Clone, Debug)]
pub struct NotificationData {
    pub notification_type: NotificationType,
    pub content: String,
    pub title: String,
}

/// The body of an error reply of the server.
#[derive(Clone, Debug)]
pub struct ErrResModel {
    pub cause: String,
}

/// `n` is a notification of kind `t` with text `text` and an empty title.
pub open spec fn is_notice(n: NotificationData, t: NotificationType, text: Seq<char>) -> bool {
    &&& n.notification_type == t
    &&& n.content@ == text
    &&& n.title@ == Seq::<char>::empty()
}

/// `n` is an error notification with text `text`.
pub open spec fn is_error(n: NotificationData, text: Seq<char>) -> bool {
    is_notice(n, NotificationType::Error, text)
}

/// `n` is a success notification with text `text`.
pub open spec fn is_success_notice(n: NotificationData, text: Seq<char>) -> bool {
    is_notice(n, NotificationType::Success, text)
}

impl NotificationData {
    /// A notification of the given kind and text, with an empty title.
    pub fn new(notification_type: NotificationType, content: &str) -> (res: Self)
        ensures
            is_notice(res, notification_type, content@),
    {
        NotificationData { notification_type, content: content.to_owned(), title: String::new() }
    }

    /// An error notification.
    pub fn error(content: &str) -> (res: Self)
        ensures
            is_error(res, content@),
    {
        Self::new(NotificationType::Error, content)
    }

    /// A success notification.
    pub fn success(content: &str) -> (res: Self)
        ensures
            is_success_notice(res, content@),
    {
        Self::new(NotificationType::Success, content)
    }
}

/// The error notification for a failed reply: the server's `cause` when its
/// body parsed, else `fallback`.
pub open spec fn cause_text(cause: Option<Seq<char>>, fallback: Seq<char>) -> Seq<char> {
    match cause {
        Some(c) => c,
        None => fallback,
    }
}

/// The view of an optional parsed cause.
pub open spec fn opt_view(s: Option<String>) -> Option<Seq<char>> {
    match s {
        Some(v) => Some(v@),
        None => None,
    }
}

/// Builds the error notification of a failed reply from the parsed cause, if any.
pub fn cause_or(cause: Option<String>, fallback: &str) -> (res: NotificationData)
    ensures
        is_error(res, cause_text(opt_view(cause), fallback@)),
{
    match cause {
        Some(c) => NotificationData {
            notification_type: NotificationType::Error,
            content: c,
            title: String::new(),
        },
        None => NotificationData::error(fallback),
    }
}

/// Adds a notification at the end of the queue.
pub fn push_notification(queue: &mut Vec<NotificationData>, n: NotificationData)
    ensures
        final(queue)@ == old(queue)@.push(n),
{
    queue.push(n);
}

/// Removes the notification at position `id` once its display time is over.
pub fn dismiss_notification(queue: &mut Vec<NotificationData>, id: usize)
    requires
        id < old(queue)@.len(),
    ensures
        final(queue)@ == old(queue)@.remove(id as int),
{
    queue.remove(id);
}

/// Dismissing the notification that was just queued gives back the queue as it was.
pub proof fn lemma_dismiss_undoes_push(queue: Seq<NotificationData>, n: NotificationData)
    ensures
        queue.push(n).remove(queue.len() as int) == queue,
{
    assert(queue.push(n).remove(queue.len() as int) =~= queue);
}

/// How a notification is drawn.
#[derive(Clone, Copy, Debug, PartialEq, Eq, Structural)]
pub enum AlertStyle {
    /// The red bordered alert with a warning triangle.
    ErrorAlert,
    /// The green bordered alert with a check mark.
    SuccessAlert,
}

/// The alert drawn for a notification kind; warnings are not drawn.
pub fn alert_style(t: NotificationType) -> (res: Option<AlertStyle>)
    ensures
        t == NotificationType::Error ==> res == Some(AlertStyle::ErrorAlert),
        t == NotificationType::Success ==> res == Some(AlertStyle::SuccessAlert),
        t == NotificationType::Warn ==> res.is_none(),
{
    match t {
        NotificationType::Error => Some(AlertStyle::ErrorAlert),
        NotificationType::Success => Some(AlertStyle::SuccessAlert),
        NotificationType::Warn => None,
    }
}

} // verus!
