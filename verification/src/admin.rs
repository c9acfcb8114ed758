//! The admin pages: verifying battle videos, and granting user roles.

use vstd::prelude::*;
use crate::notification::{self, NotificationData};

verus! {

/// A battle waiting for the admin to verify its videos.
#[derive(Clone, Debug)]
pub struct AdminSelectMatch {
    pub match_id: String,
    pub a_camp_username: String,
    pub b_camp_username: String,
    pub rules: String,
    pub responder_reply: String,
    pub a_video: String,
    pub a_img: String,
    pub b_video: String,
    pub b_img: String,
    pub a_verify: bool,
    pub b_verify: bool,
    pub voting_period: i32,
}

/// The battles waiting for verification.
#[derive(Clone, Debug)]
pub struct AdminBattleListRes {
    pub data: Vec<AdminSelectMatch>,
}

/// The "B Verify" button is offered exactly when camp B has sent a video and
/// camp A's video is verified, whatever the row's other fields (camp B's image,
/// its reply text, its own verification) hold; and the "A Verify" button exactly
/// while camp A is not verified.
pub proof fn lemma_verify_buttons(m: AdminSelectMatch, other: AdminSelectMatch)
    ensures
        spec_admin_row(m).b_verify_button <==> (m.b_video@.len() > 0 && m.a_verify),
        spec_admin_row(m).a_verify_button <==> !m.a_verify,
        other.b_video == m.b_video && other.a_verify == m.a_verify ==> spec_admin_row(other).b_verify_button
            == spec_admin_row(m).b_verify_button,
{
}

/// What a row of the verification table offers.
#[derive(Clone, Copy, Debug, PartialEq, Eq, Structural)]
pub struct AdminRow {
    /// The "A Verify" button: camp A's video is not verified yet.
    pub a_verify_button: bool,
    /// The link to camp B's image.
    pub b_image_link: bool,
    /// The link to camp B's video.
    pub b_video_link: bool,
    /// Camp B's reply text, quoted.
    pub reply_text: bool,
    /// The "B Verify" button: camp B has a video and camp A is verified.
    pub b_verify_button: bool,
}

/// What a row of the verification table offers.
pub open spec fn spec_admin_row(m: AdminSelectMatch) -> AdminRow {
    AdminRow {
        a_verify_button: !m.a_verify,
        b_image_link: m.b_img@.len() != 0,
        b_video_link: m.b_video@.len() != 0,
        reply_text: m.responder_reply@.len() != 0,
        b_verify_button: m.b_video@.len() != 0 && m.a_verify,
    }
}

/// What a row of the verification table offers.
pub fn admin_row(m: &AdminSelectMatch) -> (res: AdminRow)
    ensures
        res == spec_admin_row(*m),
        res.b_verify_button <==> (m.b_video@.len() > 0 && m.a_verify),
        res.a_verify_button <==> !m.a_verify,
        res.b_image_link <==> m.b_img@.len() > 0,
        res.b_video_link <==> m.b_video@.len() > 0,
        res.reply_text <==> m.responder_reply@.len() > 0,
{
    AdminRow {
        a_verify_button: !m.a_verify,
        b_image_link: !m.b_img.as_str().is_empty(),
        b_video_link: !m.b_video.as_str().is_empty(),
        reply_text: !m.responder_reply.as_str().is_empty(),
        b_verify_button: !m.b_video.as_str().is_empty() && m.a_verify,
    }
}

/// Camp B can only be verified after camp A.
pub proof fn lemma_b_verify_after_a(m: AdminSelectMatch)
    ensures
        !(spec_admin_row(m).a_verify_button && spec_admin_row(m).b_verify_button),
{
}

/// The notice after a verification was accepted (the table is then loaded again).
pub fn verify_success() -> (res: NotificationData)
    ensures
        notification::is_success_notice(res, "Verify Success"@),
{
    NotificationData::success("Verify Success")
}

/// The roles of a user, as the server reports them.
#[derive(Clone, Copy, Debug, PartialEq, Eq, Structural)]
pub struct GetUserRes {
    pub exist: bool,
    pub admin: bool,
    pub voter: bool,
    pub battler: bool,
    pub judge: bool,
}

/// A role that the admin grants or takes away.
#[derive(Clone, Copy, Debug, PartialEq, Eq, Structural)]
pub enum Role {
    Admin,
    Battler,
    Judge,
    Voter,
}

/// No user: unknown, no role.
pub fn no_user() -> (res: GetUserRes)
    ensures
        res == (GetUserRes { exist: false, admin: false, voter: false, battler: false, judge: false }),
{
    GetUserRes { exist: false, admin: false, voter: false, battler: false, judge: false }
}

/// Whether a user holds a role.
pub open spec fn spec_has_role(u: GetUserRes, role: Role) -> bool {
    match role {
        Role::Admin => u.admin,
        Role::Battler => u.battler,
        Role::Judge => u.judge,
        Role::Voter => u.voter,
    }
}

/// The roles after clicking a role's box: that role flips, the others stay.
pub open spec fn spec_toggle_role(u: GetUserRes, role: Role) -> GetUserRes {
    match role {
        Role::Admin => GetUserRes { admin: !u.admin, ..u },
        Role::Battler => GetUserRes { battler: !u.battler, ..u },
        Role::Judge => GetUserRes { judge: !u.judge, ..u },
        Role::Voter => GetUserRes { voter: !u.voter, ..u },
    }
}

/// A role's box was clicked: the role flips at once on the page, and the new
/// state is what is sent to the server.
pub fn toggle_role(u: GetUserRes, role: Role) -> (res: (GetUserRes, bool))
    ensures
        res.0 == spec_toggle_role(u, role),
        res.1 == !spec_has_role(u, role),
{
    match role {
        Role::Admin => (GetUserRes { admin: !u.admin, ..u }, !u.admin),
        Role::Battler => (GetUserRes { battler: !u.battler, ..u }, !u.battler),
        Role::Judge => (GetUserRes { judge: !u.judge, ..u }, !u.judge),
        Role::Voter => (GetUserRes { voter: !u.voter, ..u }, !u.voter),
    }
}

/// Clicking a role's box twice gives back the roles one started with; a click
/// flips only its own role and keeps whether the user exists.
pub proof fn lemma_toggle_role(u: GetUserRes, role: Role, other: Role)
    ensures
        spec_toggle_role(spec_toggle_role(u, role), role) == u,
        spec_has_role(spec_toggle_role(u, role), role) == !spec_has_role(u, role),
        other != role ==> spec_has_role(spec_toggle_role(u, role), other) == spec_has_role(u, other),
        spec_toggle_role(u, role).exist == u.exist,
{
}

/// The name the server knows a role by.
pub fn role_name(role: Role) -> (res: &'static str)
    ensures
        role == Role::Admin ==> res@ == "admin"@,
        role == Role::Battler ==> res@ == "battler"@,
        role == Role::Judge ==> res@ == "judge"@,
        role == Role::Voter ==> res@ == "voter"@,
{
    match role {
        Role::Admin => "admin",
        Role::Battler => "battler",
        Role::Judge => "judge",
        Role::Voter => "voter",
    }
}

/// What the role page holds about the user being edited.
#[derive(Clone, Copy, Debug, PartialEq, Eq, Structural)]
pub struct UserLookup {
    pub user_info: GetUserRes,
    /// The role boxes can be clicked.
    pub exist_flag: bool,
}

/// What the role page does with the reply to a user lookup.
#[derive(Clone, Debug)]
pub enum LookupOutcome {
    /// The session is gone: the lookup stops and the admin is logged out.
    Unauthorized,
    /// The user's roles, with this notice when the lookup failed.
    Found(UserLookup, Option<NotificationData>),
    /// The request failed to go out: this notice, and the lookup stops.
    Failed(NotificationData),
}

/// The outcome of a user lookup: the roles of a known user, or no user (with the
/// server's cause after "Response Error : " on an error status). `reason` is
/// the text of the failure to parse an error body, when it did not parse.
pub fn lookup_outcome(
    network_ok: bool,
    status: u16,
    cause: Option<String>,
    reason: &str,
    body: Option<GetUserRes>,
) -> (res: LookupOutcome)
    ensures
        !network_ok ==> (res matches LookupOutcome::Failed(n) && notification::is_error(
            n,
            "Check your internet connection"@,
        )),
        network_ok && status == crate::status::UNAUTHORIZED ==> res is Unauthorized,
        network_ok && status != crate::status::OK && status != crate::status::UNAUTHORIZED ==> (res matches LookupOutcome::Found(
            l,
            Some(n),
        ) && !l.exist_flag && l.user_info == (GetUserRes {
            exist: false,
            admin: false,
            voter: false,
            battler: false,
            judge: false,
        }) && notification::is_error(
            n,
            "Response Error : "@ + notification::cause_text(notification::opt_view(cause), reason@),
        )),
        network_ok && status == crate::status::OK && body is Some ==> (res matches LookupOutcome::Found(
            l,
            None,
        ) && l.user_info == body->0 && l.exist_flag == body->0.exist),
        network_ok && status == crate::status::OK && body is None ==> (res matches LookupOutcome::Found(
            l,
            None,
        ) && !l.exist_flag && l.user_info == (GetUserRes {
            exist: false,
            admin: false,
            voter: false,
            battler: false,
            judge: false,
        })),
{
    if !network_ok {
        LookupOutcome::Failed(NotificationData::error("Check your internet connection"))
    } else if status == crate::status::UNAUTHORIZED {
        LookupOutcome::Unauthorized
    } else if status != crate::status::OK {
        let why = match cause {
            Some(c) => c,
            None => reason.to_owned(),
        };
        let text = crate::reply::response_error_text(why.as_str());
        LookupOutcome::Found(
            UserLookup { user_info: no_user(), exist_flag: false },
            Some(NotificationData { notification_type: notification::NotificationType::Error, content: text, title: String::new() }),
        )
    } else {
        match body {
            Some(u) => LookupOutcome::Found(UserLookup { user_info: u, exist_flag: u.exist }, None),
            None => LookupOutcome::Found(UserLookup { user_info: no_user(), exist_flag: false }, None),
        }
    }
}

/// A user is only looked up once a name is typed.
pub fn lookup_needed(username: &str) -> (res: bool)
    ensures
        res == (username@.len() != 0),
{
    !username.is_empty()
}

/// Before a role is changed: the user's name must be filled in.
pub fn check_role_username(username: &str) -> (res: Option<NotificationData>)
    ensures
        username@.len() == 0 ==> (res matches Some(n) && notification::is_error(n, "Input Username"@)),
        username@.len() != 0 ==> res is None,
{
    if lookup_needed(username) {
        None
    } else {
        Some(NotificationData::error("Input Username"))
    }
}

/// The notice after a role change was stored.
pub fn role_setup_success() -> (res: NotificationData)
    ensures
        notification::is_success_notice(res, "User role setup success"@),
{
    NotificationData::success("User role setup success")
}

/// What an admin page does with the reply to a change it asked for.
#[derive(Clone, Debug)]
pub enum AdminReply {
    /// Done: this success notice, and the loading screen goes.
    Done(NotificationData),
    /// The session is gone: the loading screen goes and the user is logged out.
    Unauthorized,
    /// This error notice; the loading screen goes when `exit_loading`.
    Failed { notice: NotificationData, exit_loading: bool },
}

/// The error of an admin reply that is neither a success nor a 401: the
/// server's cause, or "Response Error : " and the reason its body did not parse.
pub open spec fn admin_error_text(cause: Option<Seq<char>>, reason: Seq<char>) -> Seq<char> {
    notification::cause_text(cause, "Response Error : "@ + reason)
}

fn admin_failure(cause: Option<String>, reason: &str) -> (res: AdminReply)
    ensures
        res matches AdminReply::Failed { notice, exit_loading } && exit_loading && notification::is_error(
            notice,
            admin_error_text(notification::opt_view(cause), reason@),
        ),
{
    let fallback = crate::text::concat2("Response Error : ", reason);
    AdminReply::Failed { notice: notification::cause_or(cause, fallback.as_str()), exit_loading: true }
}

/// The reply to verifying a camp's video of a battle ("Verify Success", and the
/// battle list loads again). A request that fails to go out: "Check your internet
/// connection", and the loading screen goes.
pub fn verify_outcome(network_ok: bool, status: u16, cause: Option<String>, reason: &str) -> (res: AdminReply)
    ensures
        !network_ok ==> (res matches AdminReply::Failed { notice, exit_loading } && exit_loading
            && notification::is_error(notice, "Check your internet connection"@)),
        network_ok && status == crate::status::OK ==> (res matches AdminReply::Done(n)
            && notification::is_success_notice(n, "Verify Success"@)),
        network_ok && status == crate::status::UNAUTHORIZED ==> res is Unauthorized,
        network_ok && status != crate::status::OK && status != crate::status::UNAUTHORIZED ==> (res matches AdminReply::Failed {
            notice,
            exit_loading,
        } && exit_loading && notification::is_error(notice, admin_error_text(notification::opt_view(cause), reason@))),
{
    if !network_ok {
        AdminReply::Failed { notice: NotificationData::error("Check your internet connection"), exit_loading: true }
    } else if status == crate::status::OK {
        AdminReply::Done(verify_success())
    } else if status == crate::status::UNAUTHORIZED {
        AdminReply::Unauthorized
    } else {
        admin_failure(cause, reason)
    }
}

/// The reply to setting a role of a user ("User role setup success"). A request
/// that fails to go out: "Check your internet connection", and the loading screen
/// stays on, as the page does.
pub fn role_setup_outcome(network_ok: bool, status: u16, cause: Option<String>, reason: &str) -> (res: AdminReply)
    ensures
        !network_ok ==> (res matches AdminReply::Failed { notice, exit_loading } && !exit_loading
            && notification::is_error(notice, "Check your internet connection"@)),
        network_ok && status == crate::status::OK ==> (res matches AdminReply::Done(n)
            && notification::is_success_notice(n, "User role setup success"@)),
        network_ok && status == crate::status::UNAUTHORIZED ==> res is Unauthorized,
        network_ok && status != crate::status::OK && status != crate::status::UNAUTHORIZED ==> (res matches AdminReply::Failed {
            notice,
            exit_loading,
        } && exit_loading && notification::is_error(notice, admin_error_text(notification::opt_view(cause), reason@))),
{
    if !network_ok {
        AdminReply::Failed { notice: NotificationData::error("Check your internet connection"), exit_loading: false }
    } else if status == crate::status::OK {
        AdminReply::Done(role_setup_success())
    } else if status == crate::status::UNAUTHORIZED {
        AdminReply::Unauthorized
    } else {
        admin_failure(cause, reason)
    }
}


/// What the admin battle page does with the reply that lists the battles to
/// verify. The loading screen goes in every case.
#[derive(Clone, Debug)]
pub enum AdminListLoad {
    Loaded(AdminBattleListRes),
    /// The session is gone: logged out.
    Unauthorized,
    Failed(NotificationData),
}

/// The admin battle list: "Check your internet connection" when the request
/// fails to go out; on an error, the server's cause, or "Response Error : " and
/// why the error body did not parse (`reason`); for a success body that did not
/// parse, "Response Error : " and why.
pub fn admin_list_load(
    network_ok: bool,
    status: u16,
    cause: Option<String>,
    body: Option<AdminBattleListRes>,
    reason: &str,
) -> (res: AdminListLoad)
    ensures
        !network_ok ==> (res matches AdminListLoad::Failed(n) && notification::is_error(
            n,
            "Check your internet connection"@,
        )),
        network_ok && status == crate::status::UNAUTHORIZED ==> res is Unauthorized,
        network_ok && status != crate::status::OK && status != crate::status::UNAUTHORIZED ==> (res matches AdminListLoad::Failed(
            n,
        ) && notification::is_error(n, admin_error_text(notification::opt_view(cause), reason@))),
        network_ok && status == crate::status::OK && body is None ==> (res matches AdminListLoad::Failed(n)
            && notification::is_error(n, "Response Error : "@ + reason@)),
        network_ok && status == crate::status::OK && body is Some ==> (res matches AdminListLoad::Loaded(l) && l
            == body->0),
{
    if !network_ok {
        AdminListLoad::Failed(NotificationData::error("Check your internet connection"))
    } else if status == crate::status::UNAUTHORIZED {
        AdminListLoad::Unauthorized
    } else if status != crate::status::OK {
        let fallback = crate::text::concat2("Response Error : ", reason);
        AdminListLoad::Failed(notification::cause_or(cause, fallback.as_str()))
    } else {
        match body {
            Some(l) => AdminListLoad::Loaded(l),
            None => {
                let text = crate::text::concat2("Response Error : ", reason);
                AdminListLoad::Failed(
                    NotificationData { notification_type: notification::NotificationType::Error, content: text, title: String::new() },
                )
            },
        }
    }
}

} // verus!
