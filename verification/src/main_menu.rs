//! The battle list of the main menu, as the server sends it.

use vstd::prelude::*;
use crate::notification::NotificationData;
pub use crate::battle::{BattleStatus, WinnerStatus};

verus! {

/// A battle as the main menu lists it.
#[derive(Clone, Debug)]
pub struct SelectedMatch {
    pub match_id: String,
    pub a_camp_username: String,
    pub b_camp_username: String,
    pub winner: WinnerStatus,
    pub status: BattleStatus,
    pub a_camp_img_src: String,
    pub b_camp_img_src: String,
    pub a_camp_vid_src: String,
    pub b_camp_vid_src: String,
    pub judges: Vec<String>,
    pub rules: String,
}

/// One page of the battle list.
#[derive(Clone, Debug)]
pub struct GetShowListResModel {
    pub data: Vec<SelectedMatch>,
    pub max_page: i32,
}


/// The main menu's battle list: "Check internet connection" when the request
/// fails to go out, the server's cause (or "Response is not correct") on an
/// error, and "Response Error" for a body that does not parse.
pub fn battle_list_load(network_ok: bool, status: u16, cause: Option<String>, body: Option<GetShowListResModel>) -> (res: Result<GetShowListResModel, NotificationData>)
    ensures
        crate::reply::list_loaded(
            res,
            network_ok,
            status,
            cause,
            body,
            "Check internet connection"@,
            "Response is not correct"@,
            "Response Error"@,
        ),
{
    crate::reply::load_outcome(
        network_ok,
        status,
        cause,
        body,
        "Check internet connection",
        "Response is not correct",
        "Response Error",
    )
}

} // verus!
