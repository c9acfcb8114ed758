//! Replying to a call-out: the snapshot, the reply text, the uploads and the reply.

use vstd::prelude::*;
use crate::notification::{self, NotificationData};
use crate::session::LoadingChange;

verus! {

/// The upload addresses for the reply video and its snapshot, as the server sends them.
#[derive(Clone, Debug)]
pub struct GetSignURLResModel {
    pub video_id: String,
    pub image_id: String,
    pub video_url: String,
    pub image_url: String,
}

/// The reply sent once both files are uploaded.
#[derive(Clone, Debug)]
pub struct ReplyRequest {
    pub match_id: String,
    pub a_camp_id: String,
    pub video_id: String,
    pub image_id: String,
    pub video_type: String,
    pub responder_reply: String,
}

/// Before a reply goes out: a snapshot must have been taken, and the reply text written.
pub fn check_reply(snapshot_url: &str, responder: &str) -> (res: Option<NotificationData>)
    ensures
        snapshot_url@.len() == 0 ==> (res matches Some(n) && notification::is_error(
            n,
            "Please take a screen"@,
        )),
        snapshot_url@.len() != 0 && responder@.len() == 0 ==> (res matches Some(n)
            && notification::is_error(n, "Please input your reply text"@)),
        snapshot_url@.len() != 0 && responder@.len() != 0 ==> res is None,
{
    if snapshot_url.is_empty() {
        Some(NotificationData::error("Please take a screen"))
    } else if responder.is_empty() {
        Some(NotificationData::error("Please input your reply text"))
    } else {
        None
    }
}

/// After the uploads: both files must have arrived.
pub fn check_uploads(video_uploaded: bool, image_uploaded: bool) -> (res: Option<NotificationData>)
    ensures
        video_uploaded && image_uploaded ==> res is None,
        !(video_uploaded && image_uploaded) ==> (res matches Some(n) && notification::is_error(
            n,
            "Upload failed"@,
        )),
{
    if !video_uploaded || !image_uploaded {
        Some(NotificationData::error("Upload failed"))
    } else {
        None
    }
}

/// The reply request for the uploaded files: an mp4 video and the reply text.
pub fn reply_request(match_id: &str, a_camp_id: &str, urls: &GetSignURLResModel, responder: &str) -> (res: ReplyRequest)
    ensures
        res.match_id@ == match_id@,
        res.a_camp_id@ == a_camp_id@,
        res.video_id == urls.video_id,
        res.image_id == urls.image_id,
        res.video_type@ == "mp4"@,
        res.responder_reply@ == responder@,
{
    ReplyRequest {
        match_id: match_id.to_owned(),
        a_camp_id: a_camp_id.to_owned(),
        video_id: urls.video_id.clone(),
        image_id: urls.image_id.clone(),
        video_type: "mp4".to_owned(),
        responder_reply: responder.to_owned(),
    }
}

/// Once the reply is stored: this notice, then the main menu opens.
pub fn reply_stored() -> (res: NotificationData)
    ensures
        notification::is_success_notice(res, "Nice, please wait admin approve your callout request"@),
{
    NotificationData::success("Nice, please wait admin approve your callout request")
}

/// When the reply request fails to go out. (The page reports it with a success
/// notice: so does this.)
pub fn reply_not_sent() -> (res: NotificationData)
    ensures
        notification::is_success_notice(res, "Check internet connection"@),
{
    NotificationData::success("Check internet connection")
}

/// The aim step as the reply steps reopen it: the video, its type and the snapshot dropped.
pub fn back_to_aim() -> (res: (i32, String, String, String))
    ensures
        res.0 == 1,
        res.1@.len() == 0,
        res.2@.len() == 0,
        res.3@.len() == 0,
{
    (1, String::new(), String::new(), String::new())
}

/// Where a reply to a call-out stands.
#[derive(Clone, Debug)]
pub enum ReplyStep {
    /// Nothing is under way.
    Idle,
    /// The upload addresses were asked for.
    AwaitingSignUrl,
    /// The video and the snapshot are being uploaded to these addresses.
    Uploading(GetSignURLResModel),
    /// The reply was sent.
    AwaitingStore,
    /// The reply is stored.
    Done,
}

/// What happens to a reply.
#[derive(Clone, Debug)]
pub enum ReplyEvent {
    /// The reply button, with the snapshot's address (empty when none was taken)
    /// and the reply text.
    Submit { snapshot_url: String, responder: String },
    /// The reply to the upload address request: whether it went out, its status,
    /// the server's error text when an error body parsed, and the parsed body of
    /// a success.
    SignUrlReply { network_ok: bool, status: u16, cause: Option<String>, body: Option<GetSignURLResModel> },
    /// Both uploads ended: whether each arrived, and the reply text as it stands then.
    Uploaded { video_ok: bool, image_ok: bool, responder: String },
    /// The reply to the reply request.
    StoreReply { network_ok: bool, status: u16, cause: Option<String> },
}

/// What the page does after a step of a reply.
#[derive(Clone, Debug)]
pub enum ReplyAction {
    Nothing,
    /// Ask for the upload addresses of the reply to the call-out of `a_camp_id` in `match_id`.
    RequestSignUrl { match_id: String, a_camp_id: String },
    /// Upload the video and the snapshot to these addresses.
    Upload { video_url: String, image_url: String },
    /// Send this reply.
    Store(ReplyRequest),
    /// The session is gone: log out.
    LogOut,
    /// The reply is stored: the main menu opens.
    OpenMainMenu,
}

/// A step of a reply: the next state, the action, the notice (if any), and the
/// loading screen.
#[derive(Clone, Debug)]
pub struct ReplyTransition {
    pub next: ReplyStep,
    pub action: ReplyAction,
    pub notice: Option<NotificationData>,
    pub loading: LoadingChange,
}

/// How far a reply has gone: nothing, the addresses asked, the uploads, the reply
/// sent, stored.
pub open spec fn reply_stage(step: ReplyStep) -> int {
    match step {
        ReplyStep::Idle => 0,
        ReplyStep::AwaitingSignUrl => 1,
        ReplyStep::Uploading(_) => 2,
        ReplyStep::AwaitingStore => 3,
        ReplyStep::Done => 4,
    }
}

/// A step that changes nothing.
pub open spec fn reply_ignored(t: ReplyTransition, step: ReplyStep) -> bool {
    &&& t.next == step
    &&& t.action is Nothing
    &&& t.notice is None
    &&& t.loading == LoadingChange::Keep
}

/// A step that ends the flow with the notice `kind`/`text`, the loading screen
/// changed by `loading`.
pub open spec fn reply_ends_with(
    t: ReplyTransition,
    kind: notification::NotificationType,
    text: Seq<char>,
    loading: LoadingChange,
) -> bool {
    &&& t.next is Idle
    &&& t.action is Nothing
    &&& (t.notice matches Some(n) && notification::is_notice(n, kind, text))
    &&& t.loading == loading
}

fn reply_end(notice: NotificationData, loading: LoadingChange) -> (t: ReplyTransition)
    ensures
        t.next is Idle,
        t.action is Nothing,
        t.notice == Some(notice),
        t.loading == loading,
{
    ReplyTransition { next: ReplyStep::Idle, action: ReplyAction::Nothing, notice: Some(notice), loading }
}

fn copy_urls(u: &GetSignURLResModel) -> (r: GetSignURLResModel)
    ensures
        r == *u,
{
    GetSignURLResModel {
        video_id: u.video_id.clone(),
        image_id: u.image_id.clone(),
        video_url: u.video_url.clone(),
        image_url: u.image_url.clone(),
    }
}

/// One step of a reply to the call-out of `a_camp_id` in `match_id`.
///
/// The reply button checks the snapshot and the text and asks for the upload
/// addresses (it starts a new flow whatever stands). Each reply of the server
/// is taken only in the state that waits for it; any other event changes
/// nothing. The reply that is sent carries the text as it stands when the
/// uploads end. A failed reply request is reported with a success notice
/// ("Check internet connection"), as the page does. No step skips a stage: each
/// moves the flow one stage on, back to the start, or not at all (the button
/// starts it over).
pub fn reply_step(step: ReplyStep, event: ReplyEvent, match_id: &str, a_camp_id: &str) -> (t: ReplyTransition)
    ensures
        (event is Submit && t.next is AwaitingSignUrl) || t.next is Idle || t.next == step || reply_stage(t.next)
            == reply_stage(step) + 1,
        event matches ReplyEvent::Submit { snapshot_url, responder } ==> (if snapshot_url@.len() == 0 {
            t.next == step && t.action is Nothing && t.loading == LoadingChange::Keep && (t.notice matches Some(
                n,
            ) && notification::is_error(n, "Please take a screen"@))
        } else if responder@.len() == 0 {
            t.next == step && t.action is Nothing && t.loading == LoadingChange::Keep && (t.notice matches Some(
                n,
            ) && notification::is_error(n, "Please input your reply text"@))
        } else {
            &&& t.next is AwaitingSignUrl
            &&& t.notice is None
            &&& t.loading == LoadingChange::Show
            &&& (t.action matches ReplyAction::RequestSignUrl { match_id: m, a_camp_id: a } && m@ == match_id@
                && a@ == a_camp_id@)
        }),
        event matches ReplyEvent::SignUrlReply { network_ok, status, cause, body } ==> (if !(step is AwaitingSignUrl) {
            reply_ignored(t, step)
        } else if !network_ok {
            reply_ends_with(t, notification::NotificationType::Error, "Check internet connection"@, LoadingChange::Exit)
        } else if status == crate::status::UNAUTHORIZED {
            t.next is Idle && t.action is LogOut && t.notice is None && t.loading == LoadingChange::Exit
        } else if status != crate::status::OK {
            reply_ends_with(
                t,
                notification::NotificationType::Error,
                notification::cause_text(notification::opt_view(cause), "Response Error"@),
                LoadingChange::Exit,
            )
        } else if body is None {
            reply_ends_with(t, notification::NotificationType::Error, "Check internet connection"@, LoadingChange::Exit)
        } else {
            &&& t.next == ReplyStep::Uploading(body->0)
            &&& t.notice is None
            &&& t.loading == LoadingChange::Exit
            &&& (t.action matches ReplyAction::Upload { video_url, image_url } && video_url == body->0.video_url
                && image_url == body->0.image_url)
        }),
        event matches ReplyEvent::Uploaded { video_ok, image_ok, responder } ==> (if !(step is Uploading) {
            reply_ignored(t, step)
        } else if !(video_ok && image_ok) {
            reply_ends_with(t, notification::NotificationType::Error, "Upload failed"@, LoadingChange::Keep)
        } else {
            &&& t.next is AwaitingStore
            &&& t.notice is None
            &&& t.loading == LoadingChange::Show
            &&& (t.action matches ReplyAction::Store(r) && r.match_id@ == match_id@ && r.a_camp_id@ == a_camp_id@
                && r.video_id == step->Uploading_0.video_id && r.image_id == step->Uploading_0.image_id
                && r.video_type@ == "mp4"@ && r.responder_reply@ == responder@)
        }),
        event matches ReplyEvent::StoreReply { network_ok, status, cause } ==> (if !(step is AwaitingStore) {
            reply_ignored(t, step)
        } else if !network_ok {
            reply_ends_with(t, notification::NotificationType::Success, "Check internet connection"@, LoadingChange::Exit)
        } else if status == crate::status::UNAUTHORIZED {
            t.next is Idle && t.action is LogOut && t.notice is None && t.loading == LoadingChange::Exit
        } else if status != crate::status::OK {
            reply_ends_with(
                t,
                notification::NotificationType::Error,
                notification::cause_text(notification::opt_view(cause), "Response Error"@),
                LoadingChange::Exit,
            )
        } else {
            &&& t.next is Done
            &&& t.action is OpenMainMenu
            &&& (t.notice matches Some(n) && notification::is_success_notice(
                n,
                "Nice, please wait admin approve your callout request"@,
            ))
            &&& t.loading == LoadingChange::Exit
        }),
{
    match event {
        ReplyEvent::Submit { snapshot_url, responder } => {
            match check_reply(snapshot_url.as_str(), responder.as_str()) {
                Some(n) => ReplyTransition { next: step, action: ReplyAction::Nothing, notice: Some(n), loading: LoadingChange::Keep },
                None => ReplyTransition {
                    next: ReplyStep::AwaitingSignUrl,
                    action: ReplyAction::RequestSignUrl { match_id: match_id.to_owned(), a_camp_id: a_camp_id.to_owned() },
                    notice: None,
                    loading: LoadingChange::Show,
                },
            }
        },
        ReplyEvent::SignUrlReply { network_ok, status, cause, body } => {
            match step {
                ReplyStep::AwaitingSignUrl => {
                    if !network_ok {
                        reply_end(NotificationData::error("Check internet connection"), LoadingChange::Exit)
                    } else if status == crate::status::UNAUTHORIZED {
                        ReplyTransition { next: ReplyStep::Idle, action: ReplyAction::LogOut, notice: None, loading: LoadingChange::Exit }
                    } else if status != crate::status::OK {
                        reply_end(notification::cause_or(cause, "Response Error"), LoadingChange::Exit)
                    } else {
                        match body {
                            Some(urls) => {
                                let kept = copy_urls(&urls);
                                ReplyTransition {
                                    next: ReplyStep::Uploading(kept),
                                    action: ReplyAction::Upload { video_url: urls.video_url, image_url: urls.image_url },
                                    notice: None,
                                    loading: LoadingChange::Exit,
                                }
                            },
                            None => reply_end(NotificationData::error("Check internet connection"), LoadingChange::Exit),
                        }
                    }
                },
                _ => ReplyTransition { next: step, action: ReplyAction::Nothing, notice: None, loading: LoadingChange::Keep },
            }
        },
        ReplyEvent::Uploaded { video_ok, image_ok, responder } => {
            match step {
                ReplyStep::Uploading(urls) => {
                    match check_uploads(video_ok, image_ok) {
                        Some(n) => reply_end(n, LoadingChange::Keep),
                        None => ReplyTransition {
                            next: ReplyStep::AwaitingStore,
                            action: ReplyAction::Store(reply_request(match_id, a_camp_id, &urls, responder.as_str())),
                            notice: None,
                            loading: LoadingChange::Show,
                        },
                    }
                },
                _ => ReplyTransition { next: step, action: ReplyAction::Nothing, notice: None, loading: LoadingChange::Keep },
            }
        },
        ReplyEvent::StoreReply { network_ok, status, cause } => {
            match step {
                ReplyStep::AwaitingStore => {
                    if !network_ok {
                        reply_end(reply_not_sent(), LoadingChange::Exit)
                    } else if status == crate::status::UNAUTHORIZED {
                        ReplyTransition { next: ReplyStep::Idle, action: ReplyAction::LogOut, notice: None, loading: LoadingChange::Exit }
                    } else if status != crate::status::OK {
                        reply_end(notification::cause_or(cause, "Response Error"), LoadingChange::Exit)
                    } else {
                        ReplyTransition {
                            next: ReplyStep::Done,
                            action: ReplyAction::OpenMainMenu,
                            notice: Some(reply_stored()),
                            loading: LoadingChange::Exit,
                        }
                    }
                },
                _ => ReplyTransition { next: step, action: ReplyAction::Nothing, notice: None, loading: LoadingChange::Keep },
            }
        },
    }
}

} // verus!
