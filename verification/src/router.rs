//! The pages of the client.

use vstd::prelude::*;

verus! {

/// A page of the client, with the parameters of its path.
#[derive(Clone, Debug)]
pub enum Route {
    MainMenu,
    Login,
    Invitation,
    Signup,
    Badge,
    Profile,
    ForgetPass,
    CallOut,
    Response,
    LiveBattle,
    Policy,
    LiveBattleShow { code: String },
    Match { match_id: String },
    GoogleLogin { state: String, code: String, scope: String, author: String, prompt: String },
    InstagramLogin { code: String },
    AdminUser,
    AdminBattle,
    PageNotFound { route: Vec<String> },
}

/// The battle page of a battle, as a user card in the response list opens it.
pub fn match_route(match_id: &str) -> (res: Route)
    ensures
        res matches Route::Match { match_id: m } && m@ == match_id@,
{
    Route::Match { match_id: match_id.to_owned() }
}

/// The live battle page of a code, as joining an event opens it.
pub fn live_battle_route(code: &str) -> (res: Route)
    ensures
        res matches Route::LiveBattleShow { code: c } && c@ == code@,
{
    Route::LiveBattleShow { code: code.to_owned() }
}

} // verus!
