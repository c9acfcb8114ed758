//! The session of the client: what every page shares (signed in, loading),
//! what is kept in local storage, how requests are made, and the header.

use vstd::prelude::*;
use crate::notification::{self, NotificationData};
use crate::text::concat2;
use crate::router::Route;

verus! {

/// What all pages share.
#[derive(Clone, Copy, Debug, PartialEq, Eq, Structural)]
pub struct SharedData {
    pub auth_flag: bool,
    pub loading_flag: bool,
}

/// What a step of a multi-request flow does to the loading screen.
#[derive(Clone, Copy, Debug, PartialEq, Eq, Structural)]
pub enum LoadingChange {
    Show,
    Exit,
    Keep,
}

/// The loading flag after a change.
pub open spec fn loading_after(flag: bool, change: LoadingChange) -> bool {
    match change {
        LoadingChange::Show => true,
        LoadingChange::Exit => false,
        LoadingChange::Keep => flag,
    }
}

impl SharedData {
    /// As the client starts: signed out, not loading.
    pub fn new() -> (res: Self)
        ensures
            !res.auth_flag,
            !res.loading_flag,
    {
        SharedData { auth_flag: false, loading_flag: false }
    }

    /// The loading screen shown, the sign-in kept.
    pub fn show_loading(self) -> (res: Self)
        ensures
            res.auth_flag == self.auth_flag,
            res.loading_flag,
    {
        SharedData { auth_flag: self.auth_flag, loading_flag: true }
    }

    /// The loading screen as a step of a flow leaves it, the sign-in kept.
    pub fn apply_loading(self, change: LoadingChange) -> (res: Self)
        ensures
            res.auth_flag == self.auth_flag,
            res.loading_flag == loading_after(self.loading_flag, change),
    {
        match change {
            LoadingChange::Show => self.show_loading(),
            LoadingChange::Exit => self.exit_loading(),
            LoadingChange::Keep => self,
        }
    }

    /// The loading screen hidden, the sign-in kept.
    pub fn exit_loading(self) -> (res: Self)
        ensures
            res.auth_flag == self.auth_flag,
            !res.loading_flag,
    {
        SharedData { auth_flag: self.auth_flag, loading_flag: false }
    }

    /// The sign-in set, the loading screen kept.
    pub fn with_auth(self, auth_flag: bool) -> (res: Self)
        ensures
            res.auth_flag == auth_flag,
            res.loading_flag == self.loading_flag,
    {
        SharedData { auth_flag, loading_flag: self.loading_flag }
    }
}

/// A value read from local storage: an empty value counts as missing.
pub open spec fn spec_stored_value(raw: Option<Seq<char>>) -> Option<Seq<char>> {
    match raw {
        Some(v) => if v.len() == 0 { None } else { Some(v) },
        None => None,
    }
}

/// A value read from local storage: missing, or empty (how values are cleared),
/// reads as `None`.
pub fn stored_value(raw: Option<String>) -> (res: Option<String>)
    ensures
        notification::opt_view(res) == spec_stored_value(notification::opt_view(raw)),
{
    match raw {
        Some(v) => if v.as_str().is_empty() { None } else { Some(v) },
        None => None,
    }
}

/// The token as it is stored and sent: "Bearer " and the token from the server.
pub fn bearer_token(token: &str) -> (res: String)
    ensures
        res@ == "Bearer "@ + token@,
{
    concat2("Bearer ", token)
}

/// A stored bearer token is never read back as missing.
pub proof fn lemma_bearer_token_reads_back(token: Seq<char>)
    ensures
        spec_stored_value(Some("Bearer "@ + token)) == Some("Bearer "@ + token),
{
    reveal_strlit("Bearer ");
    assert(("Bearer "@ + token).len() >= 7);
}

/// The page address of the login page, where a request needing a session is
/// sent when there is no token.
pub fn login_url(host_url: &str) -> (res: String)
    ensures
        res@ == host_url@ + "/login"@,
{
    concat2(host_url, "/login")
}

/// An HTTP method.
#[derive(Clone, Copy, Debug, PartialEq, Eq, Structural)]
pub enum Method {
    Get,
    Post,
    Put,
    Delete,
}

/// The method a request is sent with: "get", "post", "put", and anything else is a delete.
pub open spec fn spec_method(m: Seq<char>) -> Method {
    if m == "get"@ {
        Method::Get
    } else if m == "post"@ {
        Method::Post
    } else if m == "put"@ {
        Method::Put
    } else {
        Method::Delete
    }
}

/// The method a request is sent with.
pub fn http_method(method: &str) -> (res: Method)
    ensures
        res == spec_method(method@),
{
    let m = method.to_owned();
    if m == "get".to_owned() {
        Method::Get
    } else if m == "post".to_owned() {
        Method::Post
    } else if m == "put".to_owned() {
        Method::Put
    } else {
        Method::Delete
    }
}

/// How a request goes out.
#[derive(Clone, Debug)]
pub struct RequestPlan {
    pub method: Method,
    /// A get request carries no JSON body.
    pub sends_body: bool,
    /// The Authorization header, when the request needs the session and a token is stored.
    pub authorization: Option<String>,
    /// The request needs the session but no token is stored: the browser is sent to
    /// the login page (the request still goes out).
    pub redirect_to_login: bool,
    /// The reCAPTCHA headers are added (with the token of `action`).
    pub with_recaptcha: bool,
}

/// How a request goes out, from its method, whether it needs the session, the
/// stored token, and whether it carries a reCAPTCHA token.
pub fn plan_request(method: &str, auth_flag: bool, token: Option<String>, with_recaptcha: bool) -> (res: RequestPlan)
    ensures
        res.method == spec_method(method@),
        res.sends_body == (spec_method(method@) != Method::Get),
        auth_flag ==> res.authorization == token,
        !auth_flag ==> res.authorization is None,
        res.redirect_to_login == (auth_flag && token is None),
        res.with_recaptcha == with_recaptcha,
{
    let m = http_method(method);
    let redirect = auth_flag && token.is_none();
    RequestPlan {
        method: m,
        sends_body: m != Method::Get,
        authorization: if auth_flag { token } else { None },
        redirect_to_login: redirect,
        with_recaptcha,
    }
}

/// The reply of the server to a token check.
#[derive(Clone, Copy, Debug, PartialEq, Eq, Structural)]
pub struct AuthCheckResModel {
    pub result: bool,
    pub admin: bool,
}

/// What the layout learns from the token check.
#[derive(Clone, Debug)]
pub struct AuthCheck {
    pub auth_flag: bool,
    /// The role to store ("admin" or cleared), or `None` to leave it.
    pub user_role: Option<String>,
    /// The admin menu shown or hidden, or `None` to leave it.
    pub admin_flag: Option<bool>,
}

/// The result of the token check. No token: signed out, role cleared. The
/// request failed to go out: taken as signed in. An error status, or a reply
/// that does not parse: signed out, role cleared, no admin menu. A reply: its
/// verdict, and for an admin, the admin role and menu.
pub fn auth_check(has_token: bool, network_ok: bool, status: u16, body: Option<AuthCheckResModel>) -> (res: AuthCheck)
    ensures
        !has_token ==> !res.auth_flag && (res.user_role matches Some(r) && r@.len() == 0)
            && res.admin_flag is None,
        has_token && !network_ok ==> res.auth_flag && res.user_role is None && res.admin_flag is None,
        has_token && network_ok && (status != crate::status::OK || body is None) ==> !res.auth_flag
            && (res.user_role matches Some(r) && r@.len() == 0) && res.admin_flag == Some(false),
        has_token && network_ok && status == crate::status::OK && body is Some ==> res.auth_flag
            == body->0.result && (body->0.admin ==> (res.user_role matches Some(r) && r@ == "admin"@)
            && res.admin_flag == Some(true)) && (!body->0.admin ==> res.user_role is None
            && res.admin_flag is None),
{
    if !has_token {
        AuthCheck { auth_flag: false, user_role: Some(String::new()), admin_flag: None }
    } else if !network_ok {
        AuthCheck { auth_flag: true, user_role: None, admin_flag: None }
    } else if status != crate::status::OK {
        AuthCheck { auth_flag: false, user_role: Some(String::new()), admin_flag: Some(false) }
    } else {
        match body {
            Some(b) => {
                if b.admin {
                    AuthCheck { auth_flag: b.result, user_role: Some("admin".to_owned()), admin_flag: Some(true) }
                } else {
                    AuthCheck { auth_flag: b.result, user_role: None, admin_flag: None }
                }
            },
            None => AuthCheck { auth_flag: false, user_role: Some(String::new()), admin_flag: Some(false) },
        }
    }
}

/// What the header shows.
#[derive(Clone, Copy, Debug, PartialEq, Eq, Structural)]
pub struct HeaderNav {
    pub admin_menu: bool,
    pub install_button: bool,
    pub reply_link: bool,
    pub logout_button: bool,
    pub login_link: bool,
}

/// What the header shows for a signed-in (or not) user, an admin (or not), and
/// whether the app can be installed.
pub fn header_nav(auth_flag: bool, admin: bool, can_install: bool) -> (res: HeaderNav)
    ensures
        res.admin_menu == admin,
        res.install_button == can_install,
        res.reply_link == auth_flag,
        res.logout_button == auth_flag,
        res.login_link == !auth_flag,
{
    HeaderNav {
        admin_menu: admin,
        install_button: can_install,
        reply_link: auth_flag,
        logout_button: auth_flag,
        login_link: !auth_flag,
    }
}

/// The notice after asking the browser to install the app, from what the
/// install script answered: Safari on iOS is needed, or iOS instructions.
pub fn install_notice(answer: &str) -> (res: Option<NotificationData>)
    ensures
        answer@ == "safari"@ ==> (res matches Some(n) && notification::is_error(
            n,
            "This app can only be installed on iOS via Safari."@,
        )),
        answer@ == "ios"@ ==> (res matches Some(n) && notification::is_success_notice(
            n,
            "To install this app on your iPhone/iPad, open with Safari, tap the Share button, and then tap 'Add to Home Screen'"@,
        )),
        answer@ != "safari"@ && answer@ != "ios"@ ==> res is None,
{
    proof {
        reveal_strlit("safari");
        reveal_strlit("ios");
        assert("ios"@.len() != "safari"@.len());
    }
    let a = answer.to_owned();
    if a == "safari".to_owned() {
        Some(NotificationData::error("This app can only be installed on iOS via Safari."))
    } else if a == "ios".to_owned() {
        Some(
            NotificationData::success(
                "To install this app on your iPhone/iPad, open with Safari, tap the Share button, and then tap 'Add to Home Screen'",
            ),
        )
    } else {
        None
    }
}

/// Signing out from the header: the stored token is cleared, the session is
/// signed out and not loading, and the login page opens.
pub fn sign_out() -> (res: (String, SharedData, Route))
    ensures
        res.0@.len() == 0,
        !res.1.auth_flag,
        !res.1.loading_flag,
        res.2 is Login,
{
    (String::new(), SharedData { auth_flag: false, loading_flag: false }, Route::Login)
}

/// When the server says the session is gone: the stored token is cleared and
/// the login page opens.
pub fn go_unauthorized() -> (res: (String, Route))
    ensures
        res.0@.len() == 0,
        res.1 is Login,
{
    (String::new(), Route::Login)
}

/// The menu entries that are not ready yet answer with this notice.
pub fn coming_soon() -> (res: NotificationData)
    ensures
        notification::is_success_notice(res, "Coming Soon"@),
{
    NotificationData::success("Coming Soon")
}

} // verus!
