//! A battle: its state, how its page is laid out, and the battle list of the main menu.

use vstd::prelude::*;
use crate::callout::UserSelect;
use crate::text::{concat2, concat3};
use crate::vote::VotingType;

verus! {

/// Where a battle stands.
#[derive(Clone, Copy, Debug, PartialEq, Eq, Structural)]
pub enum BattleStatus {
    BattleClosed,
    Voting,
    WaitingResponse,
}

/// Who won a battle, once known.
#[derive(Clone, Copy, Debug, PartialEq, Eq, Structural)]
pub enum WinnerStatus {
    NotDetermine,
    WinnerA,
    WinnerB,
}

/// A battle as its own page shows it (camp A called camp B out).
#[derive(Clone, Debug)]
pub struct SelectedMatch {
    pub match_id: String,
    pub a_camp_username: String,
    pub b_camp_username: String,
    pub winner: WinnerStatus,
    pub status: BattleStatus,
    pub a_camp_img_src: String,
    pub b_camp_img_src: String,
    pub a_camp_vid_src: String,
    pub b_camp_vid_src: String,
    pub judges: Vec<String>,
    pub rules: String,
    pub a_camp_timestamp: i64,
    pub b_camp_timestamp: i64,
    pub b_reply: String,
}

/// The reply of the server to "show this battle".
#[derive(Clone, Debug)]
pub struct ShowSelectedBattleResModel {
    pub a_camp_information: UserSelect,
    pub b_camp_information: UserSelect,
    pub username_check: bool,
    pub battle_information: SelectedMatch,
    pub voting_type: VotingType,
}

/// The token sent with "show this battle" (and "show this live battle"): the
/// stored one, or empty for a visitor.
pub fn token_or_empty(stored: Option<String>) -> (res: String)
    ensures
        stored is Some ==> res == stored->0,
        stored is None ==> res@.len() == 0,
{
    match stored {
        Some(t) => t,
        None => String::new(),
    }
}

/// What the battle page (and the live battle page) does with the reply that
/// loads the battle. The loading screen goes in every case.
#[derive(Clone, Debug)]
pub enum BattleLoad {
    /// The camps, the battle, whether the signed-in user is the one called out
    /// (`username_check`), and the vote the user may cast are taken from this body.
    Loaded(ShowSelectedBattleResModel),
    /// This warning is shown instead.
    Warning(String),
}

/// The outcome of loading a battle. `reason` is the text of the failure to parse
/// a success body, when it did not parse.
pub fn battle_load(
    network_ok: bool,
    status: u16,
    cause: Option<String>,
    body: Option<ShowSelectedBattleResModel>,
    reason: &str,
) -> (res: BattleLoad)
    ensures
        !network_ok ==> (res matches BattleLoad::Warning(w) && w@ == "Please check your internet connection"@),
        network_ok && status != crate::status::OK ==> (res matches BattleLoad::Warning(w) && w@
            == crate::notification::cause_text(crate::notification::opt_view(cause), "Response is not correct"@)),
        network_ok && status == crate::status::OK && body is Some ==> (res matches BattleLoad::Loaded(b)
            && b == body->0),
        network_ok && status == crate::status::OK && body is None ==> (res matches BattleLoad::Warning(w)
            && w@ == "Response error : "@ + reason@),
{
    if !network_ok {
        BattleLoad::Warning("Please check your internet connection".to_owned())
    } else if status != crate::status::OK {
        match cause {
            Some(c) => BattleLoad::Warning(c),
            None => BattleLoad::Warning("Response is not correct".to_owned()),
        }
    } else {
        match body {
            Some(b) => BattleLoad::Loaded(b),
            None => BattleLoad::Warning(concat2("Response error : ", reason)),
        }
    }
}

/// The icon beside the camp names.
#[derive(Clone, Copy, Debug, PartialEq, Eq, Structural)]
pub enum StatusIcon {
    /// The battle is past the response: a clock.
    Clock,
    /// The battle waits for camp B's response: a stamp.
    Stamp,
}

/// What the battle page shows under camp A's video.
#[derive(Clone, Copy, Debug, PartialEq, Eq, Structural)]
pub enum ReplyPrompt {
    /// Camp B has replied: nothing.
    Nothing,
    /// The signed-in user is camp B: a "Fire to ..." panel that opens the reply steps.
    Fire,
    /// Someone else: "Waiting ...'s response".
    Waiting,
}

/// The layout of a battle's page.
#[derive(Clone, Copy, Debug, PartialEq, Eq, Structural)]
pub struct BattleView {
    pub status_icon: StatusIcon,
    pub show_reply_side: bool,
    pub prompt: ReplyPrompt,
    pub show_vote_form: bool,
    pub show_vote_list: bool,
}

/// The layout of a battle's page, from its status, whether the signed-in user
/// is the one called out (`is_fired`), and the vote the user may cast.
pub fn battle_view(status: BattleStatus, is_fired: bool, voting_type: VotingType) -> (res: BattleView)
    ensures
        res.status_icon == (if status == BattleStatus::WaitingResponse {
            StatusIcon::Stamp
        } else {
            StatusIcon::Clock
        }),
        res.show_reply_side == (status != BattleStatus::WaitingResponse),
        res.prompt == (if status != BattleStatus::WaitingResponse {
            ReplyPrompt::Nothing
        } else if is_fired {
            ReplyPrompt::Fire
        } else {
            ReplyPrompt::Waiting
        }),
        res.show_vote_form == (voting_type != VotingType::Not),
        res.show_vote_list == (status == BattleStatus::BattleClosed),
{
    let waiting = status == BattleStatus::WaitingResponse;
    BattleView {
        status_icon: if waiting { StatusIcon::Stamp } else { StatusIcon::Clock },
        show_reply_side: !waiting,
        prompt: if !waiting {
            ReplyPrompt::Nothing
        } else if is_fired {
            ReplyPrompt::Fire
        } else {
            ReplyPrompt::Waiting
        },
        show_vote_form: voting_type != VotingType::Not,
        show_vote_list: status == BattleStatus::BattleClosed,
    }
}

/// "Fire to {camp B}".
pub fn fire_prompt(b_camp_username: &str) -> (res: String)
    ensures
        res@ == "Fire to "@ + b_camp_username@,
{
    concat2("Fire to ", b_camp_username)
}

/// "Waiting {camp B}'s response".
pub fn waiting_prompt(b_camp_username: &str) -> (res: String)
    ensures
        res@ == "Waiting "@ + b_camp_username@ + "'s response"@,
{
    concat3("Waiting ", b_camp_username, "'s response")
}

/// The link to a battle's page that the share button copies.
pub fn match_share_url(host_url: &str, match_id: &str) -> (res: String)
    ensures
        res@ == host_url@ + "/match/"@ + match_id@,
{
    concat3(host_url, "/match/", match_id)
}

/// Which part the battle page shows.
#[derive(Clone, Copy, Debug, PartialEq, Eq, Structural)]
pub enum MatchScreen {
    ShowBattle,
    Aim,
    Reply,
}

/// Which part the battle page shows for a step: 0 the battle, 1 the aim step, any other the reply.
pub fn match_screen(page_flag: i32) -> (res: MatchScreen)
    ensures
        page_flag == 0 ==> res == MatchScreen::ShowBattle,
        page_flag == 1 ==> res == MatchScreen::Aim,
        page_flag != 0 && page_flag != 1 ==> res == MatchScreen::Reply,
{
    if page_flag == 0 {
        MatchScreen::ShowBattle
    } else if page_flag == 1 {
        MatchScreen::Aim
    } else {
        MatchScreen::Reply
    }
}

/// The "Fire to ..." panel opens the aim step.
pub fn fire_page_flag() -> (res: i32)
    ensures
        res == 1,
{
    1
}

/// The mark beside a camp's name on a battle card.
#[derive(Clone, Copy, Debug, PartialEq, Eq, Structural)]
pub enum CampMark {
    Trophy,
    Lost,
    Undecided,
}

/// The marks of camp A and camp B for a result.
pub open spec fn spec_camp_marks(winner: WinnerStatus) -> (CampMark, CampMark) {
    match winner {
        WinnerStatus::WinnerA => (CampMark::Trophy, CampMark::Lost),
        WinnerStatus::WinnerB => (CampMark::Lost, CampMark::Trophy),
        WinnerStatus::NotDetermine => (CampMark::Undecided, CampMark::Undecided),
    }
}

/// The marks beside camp A's and camp B's names on a battle card.
pub fn camp_marks(winner: WinnerStatus) -> (res: (CampMark, CampMark))
    ensures
        res == spec_camp_marks(winner),
{
    match winner {
        WinnerStatus::WinnerA => (CampMark::Trophy, CampMark::Lost),
        WinnerStatus::WinnerB => (CampMark::Lost, CampMark::Trophy),
        WinnerStatus::NotDetermine => (CampMark::Undecided, CampMark::Undecided),
    }
}

/// The two camps are marked alike: swapping the winner swaps the marks, and
/// at most one camp holds the trophy.
pub proof fn lemma_camp_marks_symmetric()
    ensures
        spec_camp_marks(WinnerStatus::WinnerA).0 == spec_camp_marks(WinnerStatus::WinnerB).1,
        spec_camp_marks(WinnerStatus::WinnerA).1 == spec_camp_marks(WinnerStatus::WinnerB).0,
        forall|w: WinnerStatus|
            !(#[trigger] spec_camp_marks(w).0 == CampMark::Trophy && spec_camp_marks(w).1
                == CampMark::Trophy),
{
}

/// The shape of a battle card in the main menu.
#[derive(Clone, Copy, Debug, PartialEq, Eq, Structural)]
pub enum CardKind {
    /// Closed battle: both camps, a stamp between them.
    Closed,
    /// Waiting for camp B: camp A only, and "Waiting ...'s response".
    Waiting,
    /// In its voting period: both camps, a clock between them.
    Voting,
}

/// A battle card of the main menu.
#[derive(Clone, Copy, Debug, PartialEq, Eq, Structural)]
pub struct BattleCard {
    pub kind: CardKind,
    pub a_mark: CampMark,
    pub b_mark: CampMark,
    pub show_b_image: bool,
}

/// The card of a battle with this status and result.
pub fn battle_card(status: BattleStatus, winner: WinnerStatus) -> (res: BattleCard)
    ensures
        res.kind == (match status {
            BattleStatus::BattleClosed => CardKind::Closed,
            BattleStatus::WaitingResponse => CardKind::Waiting,
            BattleStatus::Voting => CardKind::Voting,
        }),
        (res.a_mark, res.b_mark) == spec_camp_marks(winner),
        res.show_b_image == (status != BattleStatus::WaitingResponse),
{
    let (a_mark, b_mark) = camp_marks(winner);
    let kind = match status {
        BattleStatus::BattleClosed => CardKind::Closed,
        BattleStatus::WaitingResponse => CardKind::Waiting,
        BattleStatus::Voting => CardKind::Voting,
    };
    BattleCard { kind, a_mark, b_mark, show_b_image: status != BattleStatus::WaitingResponse }
}

/// The query of the main menu's battle list: search text, five battles a page,
/// the page, and the three filters (taken-back battles, closed battles,
/// battles waiting for a response).
#[derive(Clone, Debug)]
pub struct BattleListQuery {
    pub search: String,
    pub count: i32,
    pub pagination: i32,
    pub show_take_backs: bool,
    pub show_close: bool,
    pub show_incomplete: bool,
}

impl BattleListQuery {
    /// The query as the main menu opens: closed battles shown, the others not.
    pub fn new() -> (res: Self)
        ensures
            res.search@.len() == 0,
            res.count == 5,
            res.pagination == 1,
            !res.show_take_backs,
            res.show_close,
            !res.show_incomplete,
    {
        BattleListQuery {
            search: String::new(),
            count: 5,
            pagination: 1,
            show_take_backs: false,
            show_close: true,
            show_incomplete: false,
        }
    }

    /// The search text changed: back to page 1.
    pub fn set_search(&mut self, text: String)
        ensures
            final(self).search == text,
            final(self).pagination == 1,
            final(self).count == old(self).count,
            final(self).show_take_backs == old(self).show_take_backs,
            final(self).show_close == old(self).show_close,
            final(self).show_incomplete == old(self).show_incomplete,
    {
        self.search = text;
        self.pagination = 1;
    }

    /// The stamp button: taken-back battles shown or hidden, back to page 1.
    pub fn toggle_take_backs(&mut self)
        ensures
            *final(self) == spec_toggle_take_backs(*old(self)),
            final(self).show_take_backs == !old(self).show_take_backs,
            final(self).show_close == old(self).show_close,
            final(self).show_incomplete == old(self).show_incomplete,
            final(self).search == old(self).search,
            final(self).count == old(self).count,
            final(self).pagination == 1,
    {
        self.show_take_backs = !self.show_take_backs;
        self.pagination = 1;
    }

    /// The trash button: closed battles shown or hidden, back to page 1.
    pub fn toggle_close(&mut self)
        ensures
            *final(self) == spec_toggle_close(*old(self)),
            final(self).show_close == !old(self).show_close,
            final(self).show_take_backs == old(self).show_take_backs,
            final(self).show_incomplete == old(self).show_incomplete,
            final(self).search == old(self).search,
            final(self).count == old(self).count,
            final(self).pagination == 1,
    {
        self.show_close = !self.show_close;
        self.pagination = 1;
    }

    /// The question-mark button: battles waiting for a response shown or hidden, back to page 1.
    pub fn toggle_incomplete(&mut self)
        ensures
            *final(self) == spec_toggle_incomplete(*old(self)),
            final(self).show_incomplete == !old(self).show_incomplete,
            final(self).show_take_backs == old(self).show_take_backs,
            final(self).show_close == old(self).show_close,
            final(self).search == old(self).search,
            final(self).count == old(self).count,
            final(self).pagination == 1,
    {
        self.show_incomplete = !self.show_incomplete;
        self.pagination = 1;
    }
}

/// The query after the stamp button.
pub open spec fn spec_toggle_take_backs(q: BattleListQuery) -> BattleListQuery {
    BattleListQuery { show_take_backs: !q.show_take_backs, pagination: 1, ..q }
}

/// The query after the trash button.
pub open spec fn spec_toggle_close(q: BattleListQuery) -> BattleListQuery {
    BattleListQuery { show_close: !q.show_close, pagination: 1, ..q }
}

/// The query after the question-mark button.
pub open spec fn spec_toggle_incomplete(q: BattleListQuery) -> BattleListQuery {
    BattleListQuery { show_incomplete: !q.show_incomplete, pagination: 1, ..q }
}

/// The same query, on page 1.
pub open spec fn spec_first_page(q: BattleListQuery) -> BattleListQuery {
    BattleListQuery { pagination: 1, ..q }
}

/// Pressing a filter button twice gives back the query one started with, on page 1;
/// and the buttons do not interfere: pressing two of them in either order gives the same query.
pub proof fn lemma_filter_buttons(q: BattleListQuery)
    ensures
        spec_toggle_take_backs(spec_toggle_take_backs(q)) == spec_first_page(q),
        spec_toggle_close(spec_toggle_close(q)) == spec_first_page(q),
        spec_toggle_incomplete(spec_toggle_incomplete(q)) == spec_first_page(q),
        spec_toggle_close(spec_toggle_take_backs(q)) == spec_toggle_take_backs(spec_toggle_close(q)),
        spec_toggle_incomplete(spec_toggle_close(q)) == spec_toggle_close(spec_toggle_incomplete(q)),
        spec_toggle_incomplete(spec_toggle_take_backs(q)) == spec_toggle_take_backs(
            spec_toggle_incomplete(q),
        ),
{
}

/// Each filter button flips its own flag and nothing else: the other two
/// filters, the search text and the count stay, and the list goes back to page 1.
pub proof fn lemma_filter_button_flips_only_its_flag(q: BattleListQuery)
    ensures
        spec_toggle_take_backs(q).show_take_backs == !q.show_take_backs,
        spec_toggle_take_backs(q).show_close == q.show_close,
        spec_toggle_take_backs(q).show_incomplete == q.show_incomplete,
        spec_toggle_close(q).show_close == !q.show_close,
        spec_toggle_close(q).show_take_backs == q.show_take_backs,
        spec_toggle_close(q).show_incomplete == q.show_incomplete,
        spec_toggle_incomplete(q).show_incomplete == !q.show_incomplete,
        spec_toggle_incomplete(q).show_take_backs == q.show_take_backs,
        spec_toggle_incomplete(q).show_close == q.show_close,
        spec_toggle_take_backs(q).search == q.search && spec_toggle_take_backs(q).count == q.count
            && spec_toggle_take_backs(q).pagination == 1,
        spec_toggle_close(q).search == q.search && spec_toggle_close(q).count == q.count
            && spec_toggle_close(q).pagination == 1,
        spec_toggle_incomplete(q).search == q.search && spec_toggle_incomplete(q).count == q.count
            && spec_toggle_incomplete(q).pagination == 1,
{
}

/// The link to a live battle's page that the copy button copies.
pub fn live_battle_share_url(host_url: &str, code: &str) -> (res: String)
    ensures
        res@ == host_url@ + "/live-battle/"@ + code@,
{
    concat3(host_url, "/live-battle/", code)
}

} // verus!
