//! The profile page: the account, and changing its name, email and password.

use vstd::prelude::*;
use crate::session::LoadingChange;
use crate::notification::{self, NotificationData};
use crate::session::bearer_token;
use crate::status;

verus! {

/// The account as the profile page shows it.
#[derive(Clone, Debug)]
pub struct UserResModel {
    pub username: String,
    pub email: String,
    pub google_email: String,
    pub instagram_name: String,
    pub voter: bool,
    pub battler: bool,
    pub judger: bool,
    pub admin: bool,
}

/// A new token sent after a change of name or password.
#[derive(Clone, Debug)]
pub struct TokenResModel {
    pub token: String,
}

impl UserResModel {
    /// The account before it is loaded: empty texts, no role.
    pub fn empty() -> (res: Self)
        ensures
            res.username@.len() == 0,
            res.email@.len() == 0,
            res.google_email@.len() == 0,
            res.instagram_name@.len() == 0,
            !res.voter && !res.battler && !res.judger && !res.admin,
    {
        UserResModel {
            username: String::new(),
            email: String::new(),
            google_email: String::new(),
            instagram_name: String::new(),
            voter: false,
            battler: false,
            judger: false,
            admin: false,
        }
    }
}

/// The account with a new name, all else kept.
pub open spec fn spec_with_username(info: UserResModel, username: String) -> UserResModel {
    UserResModel { username, ..info }
}

/// The account with a new email, all else kept.
pub open spec fn spec_with_email(info: UserResModel, email: String) -> UserResModel {
    UserResModel { email, ..info }
}

/// The account with a new name, all else kept.
pub fn with_username(info: &UserResModel, username: String) -> (res: UserResModel)
    ensures
        res == spec_with_username(*info, username),
{
    UserResModel {
        username,
        email: info.email.clone(),
        google_email: info.google_email.clone(),
        instagram_name: info.instagram_name.clone(),
        voter: info.voter,
        battler: info.battler,
        judger: info.judger,
        admin: info.admin,
    }
}

/// The account with a new email, all else kept.
pub fn with_email(info: &UserResModel, email: String) -> (res: UserResModel)
    ensures
        res == spec_with_email(*info, email),
{
    UserResModel {
        username: info.username.clone(),
        email,
        google_email: info.google_email.clone(),
        instagram_name: info.instagram_name.clone(),
        voter: info.voter,
        battler: info.battler,
        judger: info.judger,
        admin: info.admin,
    }
}

/// Changing the name then the email is changing them the other way round, and a
/// second change of the same field overrides the first.
pub proof fn lemma_profile_updates(info: UserResModel, name: String, name2: String, email: String)
    ensures
        spec_with_email(spec_with_username(info, name), email) == spec_with_username(
            spec_with_email(info, email),
            name,
        ),
        spec_with_username(spec_with_username(info, name), name2) == spec_with_username(info, name2),
{
}

/// What the profile page does with the reply that loads the account.
#[derive(Clone, Debug)]
pub enum ProfileLoad {
    /// The account is shown (and not loaded again).
    Loaded(UserResModel),
    /// The login page opens, after this notice when there is one.
    ToLogin(Option<NotificationData>),
    /// The session is gone: this notice, then logged out.
    Unauthorized(NotificationData),
    /// The request failed to go out: this notice.
    Failed(NotificationData),
}

/// The outcome of loading the account.
pub fn profile_load(network_ok: bool, status: u16, body: Option<UserResModel>) -> (res: ProfileLoad)
    ensures
        !network_ok ==> (res matches ProfileLoad::Failed(n) && notification::is_error(
            n,
            "Please check your internet connection"@,
        )),
        network_ok && status == status::OK && body is Some ==> (res matches ProfileLoad::Loaded(u)
            && u == body->0),
        network_ok && status == status::OK && body is None ==> (res matches ProfileLoad::ToLogin(o)
            && o is None),
        network_ok && status == status::UNAUTHORIZED ==> (res matches ProfileLoad::Unauthorized(n)
            && notification::is_error(n, "You are not logged in"@)),
        network_ok && status == status::FORBIDDEN ==> (res matches ProfileLoad::ToLogin(o)
            && (o matches Some(n) && notification::is_error(n, "reCAPTCHA Error"@))),
        network_ok && status != status::OK && status != status::UNAUTHORIZED && status
            != status::FORBIDDEN ==> (res matches ProfileLoad::ToLogin(o) && (o matches Some(n)
            && notification::is_error(n, "Server Error"@))),
{
    if !network_ok {
        ProfileLoad::Failed(NotificationData::error("Please check your internet connection"))
    } else if status == status::OK {
        match body {
            Some(u) => ProfileLoad::Loaded(u),
            None => ProfileLoad::ToLogin(None),
        }
    } else if status == status::UNAUTHORIZED {
        ProfileLoad::Unauthorized(NotificationData::error("You are not logged in"))
    } else if status == status::FORBIDDEN {
        ProfileLoad::ToLogin(Some(NotificationData::error("reCAPTCHA Error")))
    } else {
        ProfileLoad::ToLogin(Some(NotificationData::error("Server Error")))
    }
}

/// A change of the account's name or password needs the new value.
fn check_filled(value: &str, missing_text: &str) -> (res: Option<NotificationData>)
    ensures
        value@.len() == 0 ==> (res matches Some(n) && notification::is_error(n, missing_text@)),
        value@.len() != 0 ==> res is None,
{
    if value.is_empty() {
        Some(NotificationData::error(missing_text))
    } else {
        None
    }
}

/// What the profile page does with the reply to a change that sends a new token.
#[derive(Clone, Debug)]
pub enum TokenChange {
    /// Changed: this value is stored as the token, and this notice shown.
    Changed(String, NotificationData),
    /// Not changed: this notice.
    Refused(NotificationData),
    /// The session is gone: logged out.
    Unauthorized,
}

/// The reply to a change of name. (A reply that does not parse, and a 403,
/// are reported with success notices: the page does so.)
pub fn username_change(network_ok: bool, status: u16, body: Option<TokenResModel>) -> (res: TokenChange)
    ensures
        !network_ok ==> (res matches TokenChange::Refused(n) && notification::is_error(
            n,
            "Check your internet connection"@,
        )),
        network_ok && status == status::ALREADY_REPORTED ==> (res matches TokenChange::Refused(n)
            && notification::is_error(n, "This username already used"@)),
        network_ok && status == status::OK && body is Some ==> (res matches TokenChange::Changed(t, n) && t@
            == "Bearer "@ + body->0.token@ && notification::is_success_notice(n, "Username changed"@)),
        network_ok && status == status::OK && body is None ==> (res matches TokenChange::Refused(n)
            && notification::is_success_notice(n, "Server Error"@)),
        network_ok && status == status::UNAUTHORIZED ==> res is Unauthorized,
        network_ok && status == status::FORBIDDEN ==> (res matches TokenChange::Refused(n)
            && notification::is_success_notice(n, "reCAPTCHA Error, please try once more"@)),
        network_ok && status != status::ALREADY_REPORTED && status != status::OK && status != status::UNAUTHORIZED
            && status != status::FORBIDDEN ==> (res matches TokenChange::Refused(n)
            && notification::is_error(n, "Server Error"@)),
{
    if !network_ok {
        TokenChange::Refused(NotificationData::error("Check your internet connection"))
    } else if status == status::ALREADY_REPORTED {
        TokenChange::Refused(NotificationData::error("This username already used"))
    } else if status == status::OK {
        match body {
            Some(b) => TokenChange::Changed(bearer_token(b.token.as_str()), NotificationData::success("Username changed")),
            None => TokenChange::Refused(NotificationData::success("Server Error")),
        }
    } else if status == status::UNAUTHORIZED {
        TokenChange::Unauthorized
    } else if status == status::FORBIDDEN {
        TokenChange::Refused(NotificationData::success("reCAPTCHA Error, please try once more"))
    } else {
        TokenChange::Refused(NotificationData::error("Server Error"))
    }
}

/// The reply to a change of password.
pub fn password_change(network_ok: bool, status: u16, body: Option<TokenResModel>) -> (res: TokenChange)
    ensures
        !network_ok ==> (res matches TokenChange::Refused(n) && notification::is_error(
            n,
            "Check internet connection"@,
        )),
        network_ok && status == status::OK && body is Some ==> (res matches TokenChange::Changed(t, n) && t@
            == "Bearer "@ + body->0.token@ && notification::is_success_notice(
            n,
            "Password changed successfully"@,
        )),
        network_ok && status == status::OK && body is None ==> (res matches TokenChange::Refused(n)
            && notification::is_error(n, "Server Error"@)),
        network_ok && status == status::UNAUTHORIZED ==> res is Unauthorized,
        network_ok && status == status::FORBIDDEN ==> (res matches TokenChange::Refused(n)
            && notification::is_error(n, "reCAPTCHA Error, please try once more"@)),
        network_ok && status != status::OK && status != status::UNAUTHORIZED && status != status::FORBIDDEN ==> (res matches TokenChange::Refused(
            n,
        ) && notification::is_error(n, "Server Error"@)),
{
    if !network_ok {
        TokenChange::Refused(NotificationData::error("Check internet connection"))
    } else if status == status::OK {
        match body {
            Some(b) => TokenChange::Changed(
                bearer_token(b.token.as_str()),
                NotificationData::success("Password changed successfully"),
            ),
            None => TokenChange::Refused(NotificationData::error("Server Error")),
        }
    } else if status == status::UNAUTHORIZED {
        TokenChange::Unauthorized
    } else if status == status::FORBIDDEN {
        TokenChange::Refused(NotificationData::error("reCAPTCHA Error, please try once more"))
    } else {
        TokenChange::Refused(NotificationData::error("Server Error"))
    }
}

/// What the password change does to the loading screen once its request has
/// ended: it goes after any reply, and stays on when the request failed to go
/// out, as the page leaves it.
pub fn password_change_loading(network_ok: bool) -> (res: LoadingChange)
    ensures
        network_ok ==> res == LoadingChange::Exit,
        !network_ok ==> res == LoadingChange::Keep,
{
    if network_ok {
        LoadingChange::Exit
    } else {
        LoadingChange::Keep
    }
}

/// What a page does with an error reply: log out or not, and the notices it queues in order.
#[derive(Clone, Debug)]
pub struct ErrorEffects {
    pub unauthorized: bool,
    pub notices: Vec<NotificationData>,
}

/// The reply to an email change request (which mails a code; `is_request`) or to
/// the code itself. A request that fails to go out: "Check your internet" (a
/// success notice, as the page shows it) for the change request, "Server Error" for
/// the code. On success, "Invitation code sent to your email" for the request
/// (the code field opens, the email field closes, the shown email becomes the new
/// one) and "Email changed successfully" for the code (the code field closes). On
/// an error status, the server's cause (or "Response Error"); a 401 also logs out,
/// and for the change request it first says "Please loin fist".
pub fn email_step(network_ok: bool, status: u16, cause: Option<String>, is_request: bool) -> (res: Result<NotificationData, ErrorEffects>)
    ensures
        !network_ok && is_request ==> (res matches Err(e) && !e.unauthorized && e.notices@.len() == 1
            && notification::is_success_notice(e.notices@[0], "Check your internet"@)),
        !network_ok && !is_request ==> (res matches Err(e) && !e.unauthorized && e.notices@.len() == 1
            && notification::is_error(e.notices@[0], "Server Error"@)),
        network_ok && status == status::OK && is_request ==> (res matches Ok(n)
            && notification::is_success_notice(n, "Invitation code sent to your email"@)),
        network_ok && status == status::OK && !is_request ==> (res matches Ok(n)
            && notification::is_success_notice(n, "Email changed successfully"@)),
        network_ok && status != status::OK ==> (res matches Err(e) && e.unauthorized == (status
            == status::UNAUTHORIZED) && (if status == status::UNAUTHORIZED && is_request {
            e.notices@.len() == 2 && notification::is_error(e.notices@[0], "Please loin fist"@)
                && notification::is_error(
                e.notices@[1],
                notification::cause_text(notification::opt_view(cause), "Response Error"@),
            )
        } else {
            e.notices@.len() == 1 && notification::is_error(
                e.notices@[0],
                notification::cause_text(notification::opt_view(cause), "Response Error"@),
            )
        })),
{
    if !network_ok {
        let n = if is_request {
            NotificationData::success("Check your internet")
        } else {
            NotificationData::error("Server Error")
        };
        let mut notices: Vec<NotificationData> = Vec::new();
        notices.push(n);
        return Err(ErrorEffects { unauthorized: false, notices });
    }
    if status == status::OK {
        if is_request {
            return Ok(NotificationData::success("Invitation code sent to your email"));
        } else {
            return Ok(NotificationData::success("Email changed successfully"));
        }
    }
    let unauthorized = status == status::UNAUTHORIZED;
    let mut notices: Vec<NotificationData> = Vec::new();
    if unauthorized && is_request {
        notices.push(NotificationData::error("Please loin fist"));
    }
    notices.push(notification::cause_or(cause, "Response Error"));
    Err(ErrorEffects { unauthorized, notices })
}

/// The name change needs a name ("Please input username").
pub fn check_username(username: &str) -> (res: Option<NotificationData>)
    ensures
        username@.len() == 0 ==> (res matches Some(n) && notification::is_error(n, "Please input username"@)),
        username@.len() != 0 ==> res is None,
{
    check_filled(username, "Please input username")
}

/// The email change needs an email ("Please input email").
pub fn check_email(email: &str) -> (res: Option<NotificationData>)
    ensures
        email@.len() == 0 ==> (res matches Some(n) && notification::is_error(n, "Please input email"@)),
        email@.len() != 0 ==> res is None,
{
    check_filled(email, "Please input email")
}

/// The password change needs a strong password (there is no repeat field here).
pub fn check_profile_password(password: &str) -> (res: Option<NotificationData>)
    ensures
        !crate::auth::strong_password(password@) ==> (res matches Some(n) && notification::is_error(
            n,
            crate::auth::weak_password_text(),
        )),
        crate::auth::strong_password(password@) ==> res is None,
{
    if crate::auth::validate_password(password) {
        None
    } else {
        Some(
            NotificationData::error(
                "Passwords must be at least 8 characters, and must have capital, lowercase, number and special characters",
            ),
        )
    }
}

} // verus!
