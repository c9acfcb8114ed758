//! The votes of a closed battle and its final score.

use vstd::prelude::*;
use crate::battle::BattleStatus;
use crate::text::{self, push_i64_decimal};

verus! {

/// A vote cast on a battle. `dollar_amount_bits` holds the bits of the amount
/// paid (an `f64`).
#[derive(Clone, Debug)]
pub struct Vote {
    pub match_id: String,
    pub voter_name: String,
    pub voter_youtube_channel_name: String,
    pub voter_youtube_channel_id: String,
    pub voter_instagram_name: String,
    pub voter_twitter_name: String,
    pub voter_twitter: String,
    pub timestamp: i64,
    pub a_camp_votes: i32,
    pub b_camp_votes: i32,
    pub statement: String,
    pub vote_type: i32,
    pub thumbnail: String,
    pub bitcoin_transaction_id: String,
    pub satoshi_amount: i64,
    pub dollar_amount_bits: u64,
    pub signature_img_file_id: String,
}

/// The final score of a closed battle.
#[derive(Clone, Debug)]
pub struct BattleScore {
    pub winner_name: String,
    pub loser_name: String,
    pub winner_final_vote: i32,
    pub loser_final_vote: i32,
    pub winner_official_vote: i32,
    pub loser_official_vote: i32,
    pub winner_judge_vote: i32,
    pub loser_judge_vote: i32,
}

/// One page of votes and the score, as the server sends them.
#[derive(Clone, Debug)]
pub struct GetVoteListResModel {
    pub data: Vec<Vote>,
    pub max_page: i32,
    pub battle_info: BattleScore,
}

/// The votes are only asked for, and shown, once the battle is closed.
pub fn shows_votes(status: BattleStatus) -> (res: bool)
    ensures
        res == (status == BattleStatus::BattleClosed),
{
    status == BattleStatus::BattleClosed
}

/// The mark before a vote's score.
#[derive(Clone, Copy, Debug, PartialEq, Eq, Structural)]
pub enum VoteBadge {
    /// An official vote: a certificate.
    Certificate,
    /// A judge's vote: a gavel.
    Gavel,
    /// An unofficial vote: no mark.
    Plain,
}

/// How a vote's card is drawn.
#[derive(Clone, Copy, Debug, PartialEq, Eq, Structural)]
pub struct VoteCard {
    pub badge: VoteBadge,
    /// The signature image is shown beside the score (signed votes).
    pub shows_signature: bool,
    /// The score takes the whole width (unofficial votes).
    pub full_width: bool,
}

/// How a vote's card is drawn, from its type (0 unofficial, 1 official, 2 judge).
pub fn vote_card(vote_type: i32) -> (res: VoteCard)
    ensures
        res.badge == (if vote_type == 1 {
            VoteBadge::Certificate
        } else if vote_type == 2 {
            VoteBadge::Gavel
        } else {
            VoteBadge::Plain
        }),
        res.shows_signature == (vote_type != 0),
        res.full_width == (vote_type == 0),
{
    let badge = if vote_type == 1 {
        VoteBadge::Certificate
    } else if vote_type == 2 {
        VoteBadge::Gavel
    } else {
        VoteBadge::Plain
    };
    VoteCard { badge, shows_signature: vote_type != 0, full_width: vote_type == 0 }
}

/// "{a} | {b}": the score of a vote, or the final score.
pub open spec fn score_line_text(a: int, b: int) -> Seq<char> {
    text::int_decimal(a) + " | "@ + text::int_decimal(b)
}

/// "{a} | {b}": the score of a vote, or the final score.
pub fn score_line(a: i32, b: i32) -> (res: String)
    ensures
        res@ == score_line_text(a as int, b as int),
{
    let mut s = String::new();
    push_i64_decimal(&mut s, a as i64);
    s.append(" | ");
    push_i64_decimal(&mut s, b as i64);
    s
}


/// The vote list under a battle: "Check internet connection" when the request
/// fails to go out, the server's cause (or "Response is not correct") on an
/// error, and "Response Error" for a body that does not parse.
pub fn vote_list_load(network_ok: bool, status: u16, cause: Option<String>, body: Option<GetVoteListResModel>) -> (res: Result<GetVoteListResModel, crate::notification::NotificationData>)
    ensures
        crate::reply::list_loaded(
            res,
            network_ok,
            status,
            cause,
            body,
            "Check internet connection"@,
            "Response is not correct"@,
            "Response Error"@,
        ),
{
    crate::reply::load_outcome(
        network_ok,
        status,
        cause,
        body,
        "Check internet connection",
        "Response is not correct",
        "Response Error",
    )
}

} // verus!
