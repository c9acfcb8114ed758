//! Live battles: setting one up with its judges, and joining one by its code.

use vstd::prelude::*;
use crate::notification::{self, NotificationData};
use crate::battle::{self, BattleLoad, ShowSelectedBattleResModel};
use crate::router::Route;

verus! {

/// The reply of the server to a live battle setup: the names that are not
/// judges (empty when the battle was created), and the new battle's code.
#[derive(Clone, Debug)]
pub struct LiveBattleSetupRes {
    pub result: Vec<String>,
    pub id: String,
}

/// The rules prefilled in the setup form.
pub fn default_rules() -> (res: String)
    ensures
        res@ == "Rules: Different songs. We choose our songs. No time limit. Freestyle or choreography. Any props. All styles. Post whenever. No extra rules."@,
{
    "Rules: Different songs. We choose our songs. No time limit. Freestyle or choreography. Any props. All styles. Post whenever. No extra rules.".to_owned()
}

/// No judge name that was filled in appears twice (empty fields do not count).
pub open spec fn judges_distinct(judges: Seq<Seq<char>>) -> bool {
    forall|i: int, j: int|
        0 <= i < j < judges.len() && judges[i].len() != 0 ==> #[trigger] judges[i] != #[trigger] judges[j]
}

/// The views of a list of texts.
pub open spec fn views(v: Seq<String>) -> Seq<Seq<char>> {
    v.map_values(|s: String| s@)
}

/// The judges are refused exactly when some name that was filled in appears
/// again, at any two places of the list (the last two fields included).
pub proof fn lemma_repeated_judge(judges: Seq<Seq<char>>)
    ensures
        !judges_distinct(judges) <==> exists|i: int, j: int|
            0 <= i < j < judges.len() && judges[i].len() > 0 && #[trigger] judges[i] == #[trigger] judges[j],
{
    if !judges_distinct(judges) {
        let (i, j) = choose|i: int, j: int|
            !(0 <= i < j < judges.len() && judges[i].len() != 0 ==> #[trigger] judges[i] != #[trigger] judges[j]);
        assert(judges[i] == judges[j]);
    }
}

/// Whether the judge names that were filled in are all different.
pub fn judges_unique(judges: &Vec<String>) -> (res: bool)
    ensures
        res == judges_distinct(views(judges@)),
        !res <==> exists|i: int, j: int|
            0 <= i < j < judges@.len() && judges@[i]@.len() > 0 && #[trigger] judges@[i]@ == #[trigger] judges@[j]@,
{
    proof {
        lemma_repeated_judge(views(judges@));
        assert forall|k: int| 0 <= k < judges@.len() implies #[trigger] views(judges@)[k] == judges@[k]@ by {}
    }
    let n = judges.len();
    let mut i: usize = 0;
    while i < n
        invariant
            n == judges@.len(),
            i <= n,
            forall|a: int, b: int|
                0 <= a < i && a < b < n && judges@[a]@.len() != 0 ==> judges@[a]@ != judges@[b]@,
        decreases n - i,
    {
        if !judges[i].as_str().is_empty() {
            let mut j: usize = i + 1;
            while j < n
                invariant
                    n == judges@.len(),
                    i < n,
                    i < j <= n,
                    judges@[i as int]@.len() != 0,
                    forall|b: int| i < b < j ==> judges@[i as int]@ != judges@[b]@,
                decreases n - j,
            {
                if judges[i] == judges[j] {
                    assert(!judges_distinct(views(judges@))) by {
                        assert(views(judges@)[i as int] == judges@[i as int]@);
                        assert(views(judges@)[j as int] == judges@[j as int]@);
                    }
                    return false;
                }
                j = j + 1;
            }
        }
        i = i + 1;
    }
    assert(judges_distinct(views(judges@))) by {
        assert forall|a: int, b: int|
            0 <= a < b < views(judges@).len() && views(judges@)[a].len() != 0 implies #[trigger] views(
                judges@,
            )[a] != #[trigger] views(judges@)[b] by {
            assert(views(judges@)[a] == judges@[a]@);
            assert(views(judges@)[b] == judges@[b]@);
        }
    }
    proof {
        lemma_repeated_judge(views(judges@));
    }
    true
}

/// Before a live battle is set up: the judges filled in must differ.
pub fn check_judges(judges: &Vec<String>) -> (res: Option<NotificationData>)
    ensures
        judges_distinct(views(judges@)) ==> res is None,
        !judges_distinct(views(judges@)) ==> (res matches Some(n) && notification::is_error(
            n,
            "Username must be uniqe"@,
        )),
{
    if judges_unique(judges) {
        None
    } else {
        Some(NotificationData::error("Username must be uniqe"))
    }
}

/// Each name followed by ", ".
pub open spec fn listed(names: Seq<Seq<char>>) -> Seq<char>
    decreases names.len(),
{
    if names.len() == 0 {
        Seq::empty()
    } else {
        listed(names.drop_last()) + names.last() + ", "@
    }
}

/// "{name}, {name}, ...are not judges".
pub fn not_judges_text(names: &Vec<String>) -> (res: String)
    ensures
        res@ == listed(views(names@)) + "are not judges"@,
{
    let mut s = String::new();
    let n = names.len();
    let mut i: usize = 0;
    while i < n
        invariant
            n == names@.len(),
            i <= n,
            s@ == listed(views(names@.take(i as int))),
        decreases n - i,
    {
        s.append(names[i].as_str());
        s.append(", ");
        proof {
            let prev = views(names@.take(i as int));
            let next = views(names@.take(i + 1));
            assert(next.drop_last() =~= prev);
            assert(next.last() == names@[i as int]@);
        }
        i = i + 1;
    }
    assert(names@.take(n as int) =~= names@);
    s.append("are not judges");
    s
}

/// What a successful setup reply leads to.
#[derive(Clone, Debug)]
pub enum SetupOutcome {
    /// The battle was created: this notice, and the code to show and share.
    Created(NotificationData, String),
    /// Some names are not judges: this error, and the form stays.
    Refused(NotificationData),
}

/// The outcome of a setup reply: created when no name was refused, else the refused names.
pub fn setup_outcome(res: &LiveBattleSetupRes) -> (out: SetupOutcome)
    ensures
        res.result@.len() == 0 ==> (out matches SetupOutcome::Created(n, code)
            && notification::is_success_notice(n, "Live Event Created"@) && code@ == res.id@),
        res.result@.len() != 0 ==> (out matches SetupOutcome::Refused(n)
            && notification::is_error(n, listed(views(res.result@)) + "are not judges"@)),
{
    if res.result.len() == 0 {
        SetupOutcome::Created(NotificationData::success("Live Event Created"), res.id.clone())
    } else {
        let t = not_judges_text(&res.result);
        SetupOutcome::Refused(
            NotificationData { notification_type: notification::NotificationType::Error, content: t, title: String::new() },
        )
    }
}

/// Before joining a live battle: its code must be filled in.
pub fn check_event_code(code: &str) -> (res: Option<NotificationData>)
    ensures
        code@.len() == 0 ==> (res matches Some(n) && notification::is_error(n, "Input Event Code"@)),
        code@.len() != 0 ==> res is None,
{
    if code.is_empty() {
        Some(NotificationData::error("Input Event Code"))
    } else {
        None
    }
}

/// The notice after the copy button: whether the link reached the clipboard.
pub fn copy_notice(copied: bool) -> (res: NotificationData)
    ensures
        copied ==> notification::is_success_notice(res, "Link Copied"@),
        !copied ==> notification::is_error(res, "Can't Copy"@),
{
    if copied {
        NotificationData::success("Link Copied")
    } else {
        NotificationData::error("Can't Copy")
    }
}

/// What the live battle page does with the reply to "join this event".
#[derive(Clone, Debug)]
pub enum JoinOutcome {
    /// The event exists: its page opens. The loading screen stays on until that
    /// page has loaded.
    Open(Route),
    /// The session is gone: the loading screen goes and the user is logged out.
    Unauthorized,
    /// This error notice; the loading screen goes when `exit_loading`.
    Failed { notice: NotificationData, exit_loading: bool },
}

/// The outcome of joining an event by `code`. `cause` is the server's error text
/// when the error body parsed, and `reason` the text of the failure to parse it.
/// A request that fails to go out leaves the loading screen on, as the page does.
pub fn join_outcome(network_ok: bool, status: u16, cause: Option<String>, reason: &str, code: &str) -> (res: JoinOutcome)
    ensures
        !network_ok ==> (res matches JoinOutcome::Failed { notice, exit_loading } && !exit_loading
            && notification::is_error(notice, "Check your internet connection"@)),
        network_ok && status == crate::status::OK ==> (res matches JoinOutcome::Open(r)
            && (r matches Route::LiveBattleShow { code: c } && c@ == code@)),
        network_ok && status == crate::status::UNAUTHORIZED ==> res is Unauthorized,
        network_ok && status != crate::status::OK && status != crate::status::UNAUTHORIZED ==> (res matches JoinOutcome::Failed {
            notice,
            exit_loading,
        } && exit_loading && notification::is_error(
            notice,
            notification::cause_text(notification::opt_view(cause), "Response Error : "@ + reason@),
        )),
{
    if !network_ok {
        JoinOutcome::Failed { notice: NotificationData::error("Check your internet connection"), exit_loading: false }
    } else if status == crate::status::OK {
        JoinOutcome::Open(crate::router::live_battle_route(code))
    } else if status == crate::status::UNAUTHORIZED {
        JoinOutcome::Unauthorized
    } else {
        let fallback = crate::text::concat2("Response Error : ", reason);
        JoinOutcome::Failed { notice: notification::cause_or(cause, fallback.as_str()), exit_loading: true }
    }
}

/// The live battle page (opened by its code) loads its battle as the battle
/// page does: the camps, the battle, whether the signed-in user was called out,
/// and the vote the user may cast from a success body; else a warning. The
/// loading screen goes in every case.
pub fn live_battle_show_load(
    network_ok: bool,
    status: u16,
    cause: Option<String>,
    body: Option<ShowSelectedBattleResModel>,
    reason: &str,
) -> (res: BattleLoad)
    ensures
        !network_ok ==> (res matches BattleLoad::Warning(w) && w@ == "Please check your internet connection"@),
        network_ok && status != crate::status::OK ==> (res matches BattleLoad::Warning(w) && w@
            == notification::cause_text(notification::opt_view(cause), "Response is not correct"@)),
        network_ok && status == crate::status::OK && body is Some ==> (res matches BattleLoad::Loaded(b)
            && b == body->0),
        network_ok && status == crate::status::OK && body is None ==> (res matches BattleLoad::Warning(w)
            && w@ == "Response error : "@ + reason@),
{
    battle::battle_load(network_ok, status, cause, body, reason)
}

} // verus!
