//! The signed vote (official or judge) as a flow of requests: ask for an upload
//! address, upload the signature drawing there, then send the ballot. Each step
//! takes the flow's state and what just happened, and gives the next state and
//! what the page does next; the page performs the requests.

use vstd::prelude::*;
use crate::notification::{self, NotificationData};
use crate::session::LoadingChange;
use crate::vote::{self, GetSignURLResModel, VoteBallot, VoteSlider, VotingType};

verus! {

/// What a signed vote sends when it asks for the signature's upload address:
/// the battle, the voting type's number, the two scores and the statement, as
/// they were when the vote was submitted. Once the address arrives, the draft
/// takes the statement as it stands then: that is the one the ballot carries.
#[derive(Clone, Debug)]
pub struct VoteDraft {
    pub match_id: String,
    pub vote_type: i32,
    pub a_camp_votes: i32,
    pub b_camp_votes: i32,
    pub statement: String,
}

/// Where a signed vote stands.
#[derive(Clone, Debug)]
pub enum SignedVoteStep {
    /// Nothing is under way.
    Idle,
    /// The upload address was asked for this draft.
    AwaitingSignUrl(VoteDraft),
    /// The signature is being uploaded; the server knows the image by this id.
    /// The draft holds the statement as it stood when the address arrived.
    Uploading(VoteDraft, String),
    /// The ballot was sent.
    AwaitingStore,
    /// The vote is stored.
    Done,
}

/// What happens to a signed vote.
#[derive(Clone, Debug)]
pub enum SignedVoteEvent {
    /// The vote button, with the address of the captured signature (empty when
    /// nothing could be captured).
    Submit { capture_url: String },
    /// The reply to the upload address request: whether it went out, its status,
    /// the server's error text when an error body parsed, and the parsed body of
    /// a success.
    SignUrlReply { network_ok: bool, status: u16, cause: Option<String>, body: Option<GetSignURLResModel> },
    /// The signature upload ended; true when it arrived.
    Uploaded(bool),
    /// The reply to the ballot.
    StoreReply { network_ok: bool, status: u16, cause: Option<String> },
}

/// What the page does after a step.
#[derive(Clone, Debug)]
pub enum VoteAction {
    Nothing,
    /// Ask for the upload address with this draft.
    RequestSignUrl(VoteDraft),
    /// Upload the signature to this address.
    Upload(String),
    /// Send this ballot.
    Store(VoteBallot),
    /// The session is gone: log out.
    LogOut,
    /// The vote is stored: the voting form closes (no vote is left).
    CloseForm,
}

/// A step: the next state, the action, the notice shown (if any), and the
/// loading screen.
#[derive(Clone, Debug)]
pub struct VoteTransition {
    pub next: SignedVoteStep,
    pub action: VoteAction,
    pub notice: Option<NotificationData>,
    pub loading: LoadingChange,
}

/// The draft of a vote on `match_id` with the form as it stands.
pub open spec fn is_draft(d: VoteDraft, match_id: Seq<char>, voting_type: VotingType, slider: VoteSlider) -> bool {
    &&& d.match_id@ == match_id
    &&& d.vote_type == vote::spec_voting_type_code(voting_type)
    &&& d.a_camp_votes == 100 - slider.range_value
    &&& d.b_camp_votes == slider.range_value
    &&& d.statement == slider.statement
}

/// The ballot of a draft whose signature the server knows as `img_id`.
pub open spec fn is_ballot_of(b: VoteBallot, d: VoteDraft, img_id: Seq<char>) -> bool {
    &&& b.match_id == d.match_id
    &&& b.img_id@ == img_id
    &&& b.vote_type == d.vote_type
    &&& b.a_camp_votes == d.a_camp_votes
    &&& b.b_camp_votes == d.b_camp_votes
    &&& b.statement == d.statement
}

/// A draft's scores are a share of 100 between the two camps.
pub open spec fn draft_wf(d: VoteDraft) -> bool {
    0 <= d.b_camp_votes <= 100 && d.a_camp_votes + d.b_camp_votes == 100
}

/// Every draft a flow holds shares 100 points between the camps.
pub open spec fn step_wf(step: SignedVoteStep) -> bool {
    match step {
        SignedVoteStep::AwaitingSignUrl(d) => draft_wf(d),
        SignedVoteStep::Uploading(d, _) => draft_wf(d),
        _ => true,
    }
}

/// How far a signed vote has gone: nothing, the address asked, the upload, the
/// ballot sent, stored.
pub open spec fn vote_stage(step: SignedVoteStep) -> int {
    match step {
        SignedVoteStep::Idle => 0,
        SignedVoteStep::AwaitingSignUrl(_) => 1,
        SignedVoteStep::Uploading(_, _) => 2,
        SignedVoteStep::AwaitingStore => 3,
        SignedVoteStep::Done => 4,
    }
}

/// A step that ends the flow with an error notice of `text`, the loading screen
/// changed by `loading`.
pub open spec fn ends_with_error(t: VoteTransition, text: Seq<char>, loading: LoadingChange) -> bool {
    &&& t.next is Idle
    &&& t.action is Nothing
    &&& (t.notice matches Some(n) && notification::is_error(n, text))
    &&& t.loading == loading
}

/// A step that changes nothing.
pub open spec fn ignored(t: VoteTransition, step: SignedVoteStep) -> bool {
    &&& t.next == step
    &&& t.action is Nothing
    &&& t.notice is None
    &&& t.loading == LoadingChange::Keep
}

/// The text of a failed reply of either request: a 403 asks the user to prove
/// not to be a robot; otherwise the server's cause, or "Response Error".
pub open spec fn refusal_text(status: u16, cause: Option<Seq<char>>) -> Seq<char> {
    if status == crate::status::FORBIDDEN {
        "Please try once more if you are not robot"@
    } else {
        notification::cause_text(cause, "Response Error"@)
    }
}

fn copy_draft(d: &VoteDraft) -> (r: VoteDraft)
    ensures
        r == *d,
{
    VoteDraft {
        match_id: d.match_id.clone(),
        vote_type: d.vote_type,
        a_camp_votes: d.a_camp_votes,
        b_camp_votes: d.b_camp_votes,
        statement: d.statement.clone(),
    }
}

fn end_with(notice: NotificationData, loading: LoadingChange) -> (t: VoteTransition)
    ensures
        t.next is Idle,
        t.action is Nothing,
        t.notice == Some(notice),
        t.loading == loading,
{
    VoteTransition { next: SignedVoteStep::Idle, action: VoteAction::Nothing, notice: Some(notice), loading }
}

fn refusal(status: u16, cause: Option<String>) -> (n: NotificationData)
    ensures
        notification::is_error(n, refusal_text(status, notification::opt_view(cause))),
{
    if status == crate::status::FORBIDDEN {
        NotificationData::error(vote::robot_notice())
    } else {
        notification::cause_or(cause, "Response Error")
    }
}

/// One step of a signed vote on `match_id`, cast as `voting_type` with the form
/// `slider`.
///
/// The vote button checks the capture and the statement and asks for the upload
/// address (it starts a new flow whatever stands). Each reply is taken only in
/// the state that waits for it; any other event changes nothing. A request that
/// fails to go out ends the flow with "Check internet connection" (the address)
/// or "Please check internet connection" (the ballot; the loading screen then
/// stays on, as the page leaves it). No step skips a stage: each moves the flow
/// one stage on, back to the start, or not at all (the button starts it over).
/// The scores of every draft the flow holds share 100 points. The scores are
/// those of the submit; the statement the ballot carries is the form's as it
/// stands when the upload address arrives.
pub fn signed_vote_step(
    step: SignedVoteStep,
    event: SignedVoteEvent,
    match_id: &str,
    voting_type: VotingType,
    slider: &VoteSlider,
) -> (t: VoteTransition)
    requires
        0 <= slider.range_value <= 100,
    ensures
        step_wf(step) ==> step_wf(t.next),
        (event is Submit && t.next is AwaitingSignUrl) || t.next is Idle || t.next == step || vote_stage(t.next)
            == vote_stage(step) + 1,
        step_wf(step) ==> (t.action matches VoteAction::Store(b) ==> 0 <= b.b_camp_votes <= 100
            && b.a_camp_votes + b.b_camp_votes == 100),
        event matches SignedVoteEvent::Submit { capture_url } ==> (if capture_url@.len() == 0 {
            t.next == step && t.action is Nothing && t.loading == LoadingChange::Keep && (t.notice matches Some(
                n,
            ) && notification::is_error(n, "Can't capture sign image"@))
        } else if slider.statement@.len() == 0 {
            t.next == step && t.action is Nothing && t.loading == LoadingChange::Keep && (t.notice matches Some(
                n,
            ) && notification::is_error(n, "Please input statement"@))
        } else {
            &&& t.loading == LoadingChange::Show
            &&& t.notice is None
            &&& (t.next matches SignedVoteStep::AwaitingSignUrl(d) && is_draft(
                d,
                match_id@,
                voting_type,
                *slider,
            ))
            &&& (t.action matches VoteAction::RequestSignUrl(d) && t.next == SignedVoteStep::AwaitingSignUrl(
                d,
            ))
        }),
        event matches SignedVoteEvent::SignUrlReply { network_ok, status, cause, body } ==> (if !(step is AwaitingSignUrl) {
            ignored(t, step)
        } else if !network_ok {
            ends_with_error(t, "Check internet connection"@, LoadingChange::Exit)
        } else if status == crate::status::UNAUTHORIZED {
            t.next is Idle && t.action is LogOut && t.notice is None && t.loading == LoadingChange::Exit
        } else if status != crate::status::OK {
            ends_with_error(t, refusal_text(status, notification::opt_view(cause)), LoadingChange::Exit)
        } else if body is None {
            ends_with_error(t, "Response Error"@, LoadingChange::Exit)
        } else {
            &&& t.notice is None
            &&& t.loading == LoadingChange::Exit
            &&& (t.next matches SignedVoteStep::Uploading(d, id) && id == body->0.img_id && d
                == (VoteDraft { statement: slider.statement, ..step->AwaitingSignUrl_0 }))
            &&& (t.action matches VoteAction::Upload(u) && u == body->0.img_sign_url)
        }),
        event matches SignedVoteEvent::Uploaded(ok) ==> (if !(step is Uploading) {
            ignored(t, step)
        } else if !ok {
            ends_with_error(t, "Please upload correct image"@, LoadingChange::Keep)
        } else {
            &&& t.notice is None
            &&& t.loading == LoadingChange::Show
            &&& t.next is AwaitingStore
            &&& (t.action matches VoteAction::Store(b) && is_ballot_of(
                b,
                step->Uploading_0,
                step->Uploading_1@,
            ))
        }),
        event matches SignedVoteEvent::StoreReply { network_ok, status, cause } ==> (if !(step is AwaitingStore) {
            ignored(t, step)
        } else if !network_ok {
            ends_with_error(t, "Please check internet connection"@, LoadingChange::Keep)
        } else if status == crate::status::UNAUTHORIZED {
            t.next is Idle && t.action is LogOut && t.notice is None && t.loading == LoadingChange::Exit
        } else if status != crate::status::OK {
            ends_with_error(t, refusal_text(status, notification::opt_view(cause)), LoadingChange::Exit)
        } else {
            &&& t.next is Done
            &&& t.action is CloseForm
            &&& (t.notice matches Some(n) && notification::is_success_notice(n, "Voting Success"@))
            &&& t.loading == LoadingChange::Exit
        }),
{
    match event {
        SignedVoteEvent::Submit { capture_url } => {
            match vote::check_signed_vote(capture_url.as_str(), slider.statement.as_str()) {
                Some(n) => VoteTransition { next: step, action: VoteAction::Nothing, notice: Some(n), loading: LoadingChange::Keep },
                None => {
                    let (a, b) = slider.vote_counts();
                    let d = VoteDraft {
                        match_id: match_id.to_owned(),
                        vote_type: vote::voting_type_code(voting_type),
                        a_camp_votes: a,
                        b_camp_votes: b,
                        statement: slider.statement.clone(),
                    };
                    let sent = copy_draft(&d);
                    VoteTransition {
                        next: SignedVoteStep::AwaitingSignUrl(d),
                        action: VoteAction::RequestSignUrl(sent),
                        notice: None,
                        loading: LoadingChange::Show,
                    }
                },
            }
        },
        SignedVoteEvent::SignUrlReply { network_ok, status, cause, body } => {
            match step {
                SignedVoteStep::AwaitingSignUrl(d) => {
                    if !network_ok {
                        end_with(NotificationData::error("Check internet connection"), LoadingChange::Exit)
                    } else if status == crate::status::UNAUTHORIZED {
                        VoteTransition { next: SignedVoteStep::Idle, action: VoteAction::LogOut, notice: None, loading: LoadingChange::Exit }
                    } else if status != crate::status::OK {
                        end_with(refusal(status, cause), LoadingChange::Exit)
                    } else {
                        match body {
                            Some(urls) => VoteTransition {
                                next: SignedVoteStep::Uploading(
                                    VoteDraft { statement: slider.statement.clone(), ..d },
                                    urls.img_id,
                                ),
                                action: VoteAction::Upload(urls.img_sign_url),
                                notice: None,
                                loading: LoadingChange::Exit,
                            },
                            None => end_with(NotificationData::error("Response Error"), LoadingChange::Exit),
                        }
                    }
                },
                _ => VoteTransition { next: step, action: VoteAction::Nothing, notice: None, loading: LoadingChange::Keep },
            }
        },
        SignedVoteEvent::Uploaded(ok) => {
            match step {
                SignedVoteStep::Uploading(d, img_id) => {
                    match vote::check_signature_upload(ok) {
                        Some(n) => end_with(n, LoadingChange::Keep),
                        None => {
                            let ballot = VoteBallot {
                                match_id: d.match_id,
                                img_id,
                                vote_type: d.vote_type,
                                a_camp_votes: d.a_camp_votes,
                                b_camp_votes: d.b_camp_votes,
                                statement: d.statement,
                            };
                            VoteTransition {
                                next: SignedVoteStep::AwaitingStore,
                                action: VoteAction::Store(ballot),
                                notice: None,
                                loading: LoadingChange::Show,
                            }
                        },
                    }
                },
                _ => VoteTransition { next: step, action: VoteAction::Nothing, notice: None, loading: LoadingChange::Keep },
            }
        },
        SignedVoteEvent::StoreReply { network_ok, status, cause } => {
            match step {
                SignedVoteStep::AwaitingStore => {
                    if !network_ok {
                        end_with(NotificationData::error("Please check internet connection"), LoadingChange::Keep)
                    } else if status == crate::status::UNAUTHORIZED {
                        VoteTransition { next: SignedVoteStep::Idle, action: VoteAction::LogOut, notice: None, loading: LoadingChange::Exit }
                    } else if status != crate::status::OK {
                        end_with(refusal(status, cause), LoadingChange::Exit)
                    } else {
                        let (n, _closed) = vote::vote_stored();
                        VoteTransition { next: SignedVoteStep::Done, action: VoteAction::CloseForm, notice: Some(n), loading: LoadingChange::Exit }
                    }
                },
                _ => VoteTransition { next: step, action: VoteAction::Nothing, notice: None, loading: LoadingChange::Keep },
            }
        },
    }
}

} // verus!
