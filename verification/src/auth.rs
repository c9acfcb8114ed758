//! Signing up, confirming the invitation code, logging in (by password or by
//! Google or Instagram), and resetting a forgotten password.

use vstd::prelude::*;
use crate::notification::{self, NotificationData};
use crate::session::bearer_token;
use crate::status;
use crate::session;
use crate::router::Route;

verus! {

/// An ASCII capital letter.
pub open spec fn is_upper(c: char) -> bool {
    'A' <= c <= 'Z'
}

/// An ASCII small letter.
pub open spec fn is_lower(c: char) -> bool {
    'a' <= c <= 'z'
}

/// An ASCII digit.
pub open spec fn is_digit(c: char) -> bool {
    '0' <= c <= '9'
}

/// A special character: neither an ASCII letter or digit, nor a space.
pub open spec fn is_special(c: char) -> bool {
    !is_upper(c) && !is_lower(c) && !is_digit(c) && c != ' '
}

/// A strong password: at least 8 characters, with a capital letter, a small
/// letter, a digit and a special character.
pub open spec fn strong_password(p: Seq<char>) -> bool {
    &&& p.len() >= 8
    &&& exists|i: int| 0 <= i < p.len() && is_upper(#[trigger] p[i])
    &&& exists|i: int| 0 <= i < p.len() && is_lower(#[trigger] p[i])
    &&& exists|i: int| 0 <= i < p.len() && is_digit(#[trigger] p[i])
    &&& exists|i: int| 0 <= i < p.len() && is_special(#[trigger] p[i])
}

/// The password rule in plain characters: at least 8 characters, an ASCII
/// capital, an ASCII small letter, a decimal digit ('0' to '9', each of them),
/// and a character that is none of these and not a space.
pub proof fn lemma_password_rule(p: Seq<char>)
    ensures
        strong_password(p) <==> (p.len() >= 8 && (exists|i: int| 0 <= i < p.len() && 'A' <= #[trigger] p[i] <= 'Z')
            && (exists|i: int| 0 <= i < p.len() && 'a' <= #[trigger] p[i] <= 'z') && (exists|i: int|
            0 <= i < p.len() && '0' <= #[trigger] p[i] <= '9') && (exists|i: int|
            0 <= i < p.len() && !('A' <= #[trigger] p[i] <= 'Z') && !('a' <= p[i] <= 'z') && !('0' <= p[i] <= '9')
                && p[i] != ' ')),
{
    if p.len() >= 8 && (exists|i: int| 0 <= i < p.len() && 'A' <= #[trigger] p[i] <= 'Z') && (exists|i: int|
        0 <= i < p.len() && 'a' <= #[trigger] p[i] <= 'z') && (exists|i: int|
        0 <= i < p.len() && '0' <= #[trigger] p[i] <= '9') && (exists|i: int|
        0 <= i < p.len() && !('A' <= #[trigger] p[i] <= 'Z') && !('a' <= p[i] <= 'z') && !('0' <= p[i] <= '9')
            && p[i] != ' ') {
        let a = choose|i: int| 0 <= i < p.len() && 'A' <= #[trigger] p[i] <= 'Z';
        let b = choose|i: int| 0 <= i < p.len() && 'a' <= #[trigger] p[i] <= 'z';
        let c = choose|i: int| 0 <= i < p.len() && '0' <= #[trigger] p[i] <= '9';
        let d = choose|i: int|
            0 <= i < p.len() && !('A' <= #[trigger] p[i] <= 'Z') && !('a' <= p[i] <= 'z') && !('0' <= p[i] <= '9')
                && p[i] != ' ';
        assert(is_upper(p[a]));
        assert(is_lower(p[b]));
        assert(is_digit(p[c]));
        assert(is_special(p[d]));
    }
    if strong_password(p) {
        let a = choose|i: int| 0 <= i < p.len() && is_upper(#[trigger] p[i]);
        let b = choose|i: int| 0 <= i < p.len() && is_lower(#[trigger] p[i]);
        let c = choose|i: int| 0 <= i < p.len() && is_digit(#[trigger] p[i]);
        let d = choose|i: int| 0 <= i < p.len() && is_special(#[trigger] p[i]);
        assert('A' <= p[a] <= 'Z');
        assert('a' <= p[b] <= 'z');
        assert('0' <= p[c] <= '9');
        assert(!('A' <= p[d] <= 'Z') && !('a' <= p[d] <= 'z') && !('0' <= p[d] <= '9') && p[d] != ' ');
    }
}

/// Whether a password is strong enough to be accepted.
pub fn validate_password(password: &str) -> (res: bool)
    ensures
        res == strong_password(password@),
        res <==> (password@.len() >= 8 && (exists|i: int|
            0 <= i < password@.len() && 'A' <= #[trigger] password@[i] <= 'Z') && (exists|i: int|
            0 <= i < password@.len() && 'a' <= #[trigger] password@[i] <= 'z') && (exists|i: int|
            0 <= i < password@.len() && '0' <= #[trigger] password@[i] <= '9') && (exists|i: int|
            0 <= i < password@.len() && !('A' <= #[trigger] password@[i] <= 'Z') && !('a' <= password@[i] <= 'z')
                && !('0' <= password@[i] <= '9') && password@[i] != ' ')),
{
    proof {
        lemma_password_rule(password@);
    }
    let n = password.unicode_len();
    let mut upper = false;
    let mut lower = false;
    let mut digit = false;
    let mut special = false;
    let mut i: usize = 0;
    while i < n
        invariant
            n == password@.len(),
            i <= n,
            upper == exists|k: int| 0 <= k < i && is_upper(#[trigger] password@[k]),
            lower == exists|k: int| 0 <= k < i && is_lower(#[trigger] password@[k]),
            digit == exists|k: int| 0 <= k < i && is_digit(#[trigger] password@[k]),
            special == exists|k: int| 0 <= k < i && is_special(#[trigger] password@[k]),
        decreases n - i,
    {
        let c = password.get_char(i);
        if 'A' <= c && c <= 'Z' {
            upper = true;
        } else if 'a' <= c && c <= 'z' {
            lower = true;
        } else if '0' <= c && c <= '9' {
            digit = true;
        } else if c != ' ' {
            special = true;
        }
        i = i + 1;
    }
    n >= 8 && upper && lower && digit && special
}

/// The message shown for a password that is not strong enough.
pub open spec fn weak_password_text() -> Seq<char> {
    "Passwords must be at least 8 characters, and must have capital, lowercase, number and special characters"@
}

/// Before a new password is sent: the two fields must agree (else `mismatch_text`),
/// and the password must be strong.
fn check_new_password(password: &str, repeat: &str, mismatch_text: &str) -> (res: Option<NotificationData>)
    ensures
        password@ != repeat@ ==> (res matches Some(n) && notification::is_error(n, mismatch_text@)),
        password@ == repeat@ && !strong_password(password@) ==> (res matches Some(n)
            && notification::is_error(n, weak_password_text())),
        password@ == repeat@ && strong_password(password@) ==> res is None,
{
    if password.to_owned() != repeat.to_owned() {
        return Some(NotificationData::error(mismatch_text));
    }
    if !validate_password(password) {
        return Some(
            NotificationData::error(
                "Passwords must be at least 8 characters, and must have capital, lowercase, number and special characters",
            ),
        );
    }
    None
}

/// What a sign-up, invitation or password form does with a reply.
#[derive(Clone, Debug)]
pub enum FormOutcome {
    /// Success: this notice, then the page's own next step.
    Done(NotificationData),
    /// Failure: this notice, and the form stays.
    Failed(NotificationData),
    /// A status the page does not tell apart: only the loading screen goes.
    Silent,
}

/// The outcome for a status: `Done` with `ok_text` on 200, `Failed` with the
/// page's text for the status, else `Silent`.
pub open spec fn outcome_ok(out: FormOutcome, status: u16, ok_text: Seq<char>, error_text: Option<Seq<char>>) -> bool {
    if status == status::OK {
        out matches FormOutcome::Done(n) && notification::is_success_notice(n, ok_text)
    } else {
        match error_text {
            Some(t) => out matches FormOutcome::Failed(n) && notification::is_error(n, t),
            None => out is Silent,
        }
    }
}

fn failed(text: &str) -> (res: FormOutcome)
    ensures
        res matches FormOutcome::Failed(n) && notification::is_error(n, text@),
{
    FormOutcome::Failed(NotificationData::error(text))
}

/// The texts of the sign-up page for each error status.
pub open spec fn signup_error_text(status: u16) -> Option<Seq<char>> {
    if status == status::FORBIDDEN {
        Some("ReCAPTCHA error, please resend"@)
    } else if status == status::INTERNAL_SERVER_ERROR {
        Some("Server error"@)
    } else if status == status::CONFLICT {
        Some("Email or Username already registered"@)
    } else if status == status::ALREADY_REPORTED {
        Some("You 've already registered but your account need email verify."@)
    } else if status == status::BAD_REQUEST {
        Some("Bad request."@)
    } else {
        None
    }
}

/// The sign-up reply. On success the email is kept for the invitation page,
/// which is shown next.
pub fn signup_outcome(status: u16) -> (res: FormOutcome)
    ensures
        outcome_ok(res, status, "User registered successfully"@, signup_error_text(status)),
{
    if status == status::OK {
        FormOutcome::Done(NotificationData::success("User registered successfully"))
    } else if status == status::FORBIDDEN {
        failed("ReCAPTCHA error, please resend")
    } else if status == status::INTERNAL_SERVER_ERROR {
        failed("Server error")
    } else if status == status::CONFLICT {
        failed("Email or Username already registered")
    } else if status == status::ALREADY_REPORTED {
        failed("You 've already registered but your account need email verify.")
    } else if status == status::BAD_REQUEST {
        failed("Bad request.")
    } else {
        FormOutcome::Silent
    }
}

/// The texts of the invitation page for each error status of the code check.
pub open spec fn invitation_error_text(status: u16) -> Option<Seq<char>> {
    if status == status::FORBIDDEN {
        Some("reCAPTCHA error, please resend"@)
    } else if status == status::INTERNAL_SERVER_ERROR {
        Some("Server Error"@)
    } else if status == status::BAD_REQUEST {
        Some("Email or Invitation code doesn't match"@)
    } else if status == status::REQUEST_TIMEOUT {
        Some("Invitation code expired"@)
    } else {
        None
    }
}

/// The reply to an invitation code. On success the kept email is cleared and
/// the login page shown.
pub fn invitation_outcome(status: u16) -> (res: FormOutcome)
    ensures
        outcome_ok(res, status, "Email verify successfully"@, invitation_error_text(status)),
{
    if status == status::OK {
        FormOutcome::Done(NotificationData::success("Email verify successfully"))
    } else if status == status::FORBIDDEN {
        failed("reCAPTCHA error, please resend")
    } else if status == status::INTERNAL_SERVER_ERROR {
        failed("Server Error")
    } else if status == status::BAD_REQUEST {
        failed("Email or Invitation code doesn't match")
    } else if status == status::REQUEST_TIMEOUT {
        failed("Invitation code expired")
    } else {
        FormOutcome::Silent
    }
}

/// The texts of the invitation page for each error status of a new code request.
pub open spec fn resend_error_text(status: u16) -> Option<Seq<char>> {
    if status == status::FORBIDDEN {
        Some("reCAPTCHA error, please resend"@)
    } else if status == status::INTERNAL_SERVER_ERROR {
        Some("Server error"@)
    } else if status == status::CONFLICT {
        Some("Email or Username already registered"@)
    } else if status == status::BAD_REQUEST {
        Some("Email doesn't exist"@)
    } else if status == status::REQUEST_TIMEOUT {
        Some("Invitation code expired"@)
    } else {
        None
    }
}

/// The reply to a request for a new invitation code.
pub fn resend_outcome(status: u16) -> (res: FormOutcome)
    ensures
        outcome_ok(res, status, "Resend invitation code"@, resend_error_text(status)),
{
    if status == status::OK {
        FormOutcome::Done(NotificationData::success("Resend invitation code"))
    } else if status == status::FORBIDDEN {
        failed("reCAPTCHA error, please resend")
    } else if status == status::INTERNAL_SERVER_ERROR {
        failed("Server error")
    } else if status == status::CONFLICT {
        failed("Email or Username already registered")
    } else if status == status::BAD_REQUEST {
        failed("Email doesn't exist")
    } else if status == status::REQUEST_TIMEOUT {
        failed("Invitation code expired")
    } else {
        FormOutcome::Silent
    }
}

/// A new invitation code needs the email.
pub fn check_resend_email(email: &str) -> (res: Option<NotificationData>)
    ensures
        email@.len() == 0 ==> (res matches Some(n) && notification::is_error(n, "Input email"@)),
        email@.len() != 0 ==> res is None,
{
    if email.is_empty() {
        Some(NotificationData::error("Input email"))
    } else {
        None
    }
}

/// The password fields of the sign-up page: the repeat must agree ("Password
/// does not match") and the password must be strong.
pub fn check_signup_password(password: &str, repeat: &str) -> (res: Option<NotificationData>)
    ensures
        password@ != repeat@ ==> (res matches Some(n) && notification::is_error(n, "Password does not match"@)),
        password@ == repeat@ && !strong_password(password@) ==> (res matches Some(n)
            && notification::is_error(n, weak_password_text())),
        password@ == repeat@ && strong_password(password@) ==> res is None,
{
    check_new_password(password, repeat, "Password does not match")
}

/// The password fields of the forgotten-password page: the repeat must agree
/// ("Password doesn't match") and the password must be strong. Nothing is sent
/// when this gives a notice.
pub fn check_reset_password(password: &str, repeat: &str) -> (res: Option<NotificationData>)
    ensures
        password@ != repeat@ ==> (res matches Some(n) && notification::is_error(n, "Password doesn't match"@)),
        password@ == repeat@ && !strong_password(password@) ==> (res matches Some(n)
            && notification::is_error(n, weak_password_text())),
        password@ == repeat@ && strong_password(password@) ==> res is None,
{
    check_new_password(password, repeat, "Password doesn't match")
}

/// The body of a password reset: the email, the new password and the emailed code.
#[derive(Clone, Debug)]
pub struct ResetRequest {
    pub email: String,
    pub password: String,
    pub code: String,
}

/// The body of a password reset.
pub fn reset_request(email: &str, password: &str, code: &str) -> (res: ResetRequest)
    ensures
        res.email@ == email@,
        res.password@ == password@,
        res.code@ == code@,
{
    ResetRequest { email: email.to_owned(), password: password.to_owned(), code: code.to_owned() }
}

/// The forgotten-password page's reply to "send me a reset email": the notice,
/// and whether the page moves on to the new-password form. (The loading screen
/// goes in every case.)
pub fn reset_email_reply(network_ok: bool, status: u16, cause: Option<String>) -> (res: (NotificationData, bool))
    ensures
        !network_ok ==> notification::is_error(res.0, "Check Internet Connection"@) && !res.1,
        network_ok && status == status::OK ==> notification::is_success_notice(res.0, "Email Sent successfully"@)
            && res.1,
        network_ok && status != status::OK ==> notification::is_error(
            res.0,
            notification::cause_text(notification::opt_view(cause), "Response Error"@),
        ) && !res.1,
{
    if !network_ok {
        (NotificationData::error("Check Internet Connection"), false)
    } else if status == status::OK {
        (NotificationData::success("Email Sent successfully"), true)
    } else {
        (notification::cause_or(cause, "Response Error"), false)
    }
}

/// The forgotten-password page's reply to the reset itself: the notice, and the
/// page to open (the login page on success). (The loading screen goes in every case.)
pub fn reset_password_reply(network_ok: bool, status: u16, cause: Option<String>) -> (res: (NotificationData, Option<Route>))
    ensures
        !network_ok ==> notification::is_error(res.0, "Check your internet connection"@) && res.1 is None,
        network_ok && status == status::OK ==> notification::is_success_notice(res.0, "Password Changed"@)
            && (res.1 matches Some(r) && r is Login),
        network_ok && status != status::OK ==> notification::is_error(
            res.0,
            notification::cause_text(notification::opt_view(cause), "Response Error"@),
        ) && res.1 is None,
{
    if !network_ok {
        (NotificationData::error("Check your internet connection"), None)
    } else if status == status::OK {
        (NotificationData::success("Password Changed"), Some(Route::Login))
    } else {
        (notification::cause_or(cause, "Response Error"), None)
    }
}

/// The key under which the sign-up page keeps the email for the invitation page.
pub open spec fn invitation_email_key() -> Seq<char> {
    "invitation_email"@
}

/// What a successful sign-up writes to local storage: the email under
/// "invitation_email"; then the invitation page opens.
pub fn signup_done_storage(email: &str) -> (res: (String, String, Route))
    ensures
        res.0@ == invitation_email_key(),
        res.1@ == email@,
        res.2 is Invitation,
{
    ("invitation_email".to_owned(), email.to_owned(), Route::Invitation)
}

/// What a successful invitation code writes to local storage: the kept email
/// cleared; then the login page opens.
pub fn invitation_done_storage() -> (res: (String, String, Route))
    ensures
        res.0@ == invitation_email_key(),
        res.1@.len() == 0,
        res.2 is Login,
{
    ("invitation_email".to_owned(), String::new(), Route::Login)
}

/// The email field of the invitation page as it opens, from the raw stored value.
pub open spec fn spec_invitation_email(raw: Option<Seq<char>>) -> Seq<char> {
    match session::spec_stored_value(raw) {
        Some(v) => v,
        None => Seq::empty(),
    }
}

/// The email field of the invitation page as it opens: the kept email, or empty.
pub fn invitation_email(raw: Option<String>) -> (res: String)
    ensures
        res@ == spec_invitation_email(notification::opt_view(raw)),
{
    match session::stored_value(raw) {
        Some(v) => v,
        None => String::new(),
    }
}

/// The invitation page opens with the email that a sign-up kept in local
/// storage (whatever else the storage holds), and, once the code is confirmed
/// (which clears it), opens with an empty field.
pub proof fn lemma_invitation_email_round_trip(storage: Map<Seq<char>, Seq<char>>, email: Seq<char>)
    ensures
        spec_invitation_email(storage.insert(invitation_email_key(), email).get(invitation_email_key()))
            == email,
        spec_invitation_email(
            storage.insert(invitation_email_key(), email).insert(invitation_email_key(), Seq::<char>::empty()).get(
                invitation_email_key(),
            ),
        ) == Seq::<char>::empty(),
        !storage.dom().contains(invitation_email_key()) ==> spec_invitation_email(
            storage.get(invitation_email_key()),
        ) == Seq::<char>::empty(),
{
}

/// What the login page's Google button does with the reply that should carry
/// Google's address. Unlike the other buttons it shows no notice: failures are
/// only logged.
#[derive(Clone, Debug)]
pub enum LoginGoogle {
    /// The loading screen goes, the marker "false" is stored (signing in, not
    /// linking), and the browser goes to this address.
    Redirect(String),
    /// Logged only; the loading screen goes when `exit_loading`, and stays when the
    /// reply parsed but had no address.
    LogOnly { exit_loading: bool },
}

/// The outcome of the login page's Google button.
pub fn login_google_outcome(network_ok: bool, success: bool, body: Option<Option<String>>) -> (res: LoginGoogle)
    ensures
        network_ok && success && (body matches Some(Some(u))) ==> (res matches LoginGoogle::Redirect(v)
            && v == body->0->0),
        network_ok && success && body == Some(None::<String>) ==> res == (LoginGoogle::LogOnly {
            exit_loading: false,
        }),
        !(network_ok && success && body is Some) ==> res == (LoginGoogle::LogOnly { exit_loading: true }),
{
    if network_ok && success {
        match body {
            Some(Some(u)) => LoginGoogle::Redirect(u),
            Some(None) => LoginGoogle::LogOnly { exit_loading: false },
            None => LoginGoogle::LogOnly { exit_loading: true },
        }
    } else {
        LoginGoogle::LogOnly { exit_loading: true }
    }
}

/// The marker that the login page's Google and Instagram buttons store before
/// leaving: "false", for signing in; the profile page stores "true", for linking.
pub fn oauth_marker(linking: bool) -> (res: &'static str)
    ensures
        linking ==> res@ == "true"@,
        !linking ==> res@ == "false"@,
{
    if linking { "true" } else { "false" }
}

/// The reply of the server to a login.
#[derive(Clone, Debug)]
pub struct LoginResModel {
    pub token: String,
}

/// What the login page does with a reply.
#[derive(Clone, Debug)]
pub enum LoginOutcome {
    /// Signed in: this value is stored as the token, the shared flags become
    /// these (signed in, not loading), this notice is shown, and this page (the
    /// profile) opens.
    SignedIn(String, NotificationData, session::SharedData, Route),
    /// The reply did not parse: this warning is shown under the form.
    Warning(String),
    /// Refused: this notice.
    Failed(NotificationData),
    /// A status the page does not tell apart.
    Silent,
}

/// The texts of the login page for each error status.
pub open spec fn login_error_text(status: u16) -> Option<Seq<char>> {
    if status == status::FORBIDDEN {
        Some("reCAPTCHA error, please resend"@)
    } else if status == status::INTERNAL_SERVER_ERROR {
        Some("Server error"@)
    } else if status == status::UNAUTHORIZED {
        Some("Email or Password doesn't match"@)
    } else if status == status::BAD_REQUEST {
        Some("Bad request"@)
    } else {
        None
    }
}

/// The login reply, with the token when the body parsed.
pub fn login_outcome(status: u16, body: Option<LoginResModel>) -> (res: LoginOutcome)
    ensures
        status == status::OK && body is Some ==> (res matches LoginOutcome::SignedIn(t, n, d, r) && t@
            == "Bearer "@ + body->0.token@ && notification::is_success_notice(n, "Login success"@)
            && d.auth_flag && !d.loading_flag && r is Profile),
        status == status::OK && body is None ==> (res matches LoginOutcome::Warning(w) && w@
            == "Server Error"@),
        status != status::OK && login_error_text(status) is Some ==> (res matches LoginOutcome::Failed(n)
            && notification::is_error(n, login_error_text(status)->0)),
        status != status::OK && login_error_text(status) is None ==> res is Silent,
{
    if status == status::OK {
        match body {
            Some(b) => LoginOutcome::SignedIn(
                bearer_token(b.token.as_str()),
                NotificationData::success("Login success"),
                session::SharedData::new().with_auth(true),
                Route::Profile,
            ),
            None => LoginOutcome::Warning("Server Error".to_owned()),
        }
    } else if status == status::FORBIDDEN {
        LoginOutcome::Failed(NotificationData::error("reCAPTCHA error, please resend"))
    } else if status == status::INTERNAL_SERVER_ERROR {
        LoginOutcome::Failed(NotificationData::error("Server error"))
    } else if status == status::UNAUTHORIZED {
        LoginOutcome::Failed(NotificationData::error("Email or Password doesn't match"))
    } else if status == status::BAD_REQUEST {
        LoginOutcome::Failed(NotificationData::error("Bad request"))
    } else {
        LoginOutcome::Silent
    }
}

/// `needle` occurs in `hay`.
pub open spec fn contains_text(hay: Seq<char>, needle: Seq<char>) -> bool {
    exists|i: int| 0 <= i && i + needle.len() <= hay.len() && #[trigger] hay.subrange(i, i + needle.len()) == needle
}

/// Whether `needle` occurs in `hay`.
pub fn text_contains(hay: &str, needle: &str) -> (res: bool)
    ensures
        res == contains_text(hay@, needle@),
{
    let m = needle.unicode_len();
    let n = hay.unicode_len();
    if n < m {
        assert forall|i: int| 0 <= i && i + needle@.len() <= hay@.len() implies
            #[trigger] hay@.subrange(i, i + needle@.len()) != needle@ by {}
        return false;
    }
    let mut i: usize = 0;
    while i <= n - m
        invariant
            m == needle@.len(),
            n == hay@.len(),
            m <= n,
            i <= n - m + 1,
            forall|k: int| 0 <= k < i ==> #[trigger] hay@.subrange(k, k + m) != needle@,
        decreases n - i,
    {
        let mut j: usize = 0;
        let mut same = true;
        while j < m
            invariant
                m == needle@.len(),
                n == hay@.len(),
                i + m <= n,
                j <= m,
                same == (forall|k: int| 0 <= k < j ==> hay@[i + k] == needle@[k]),
            decreases m - j,
        {
            if hay.get_char(i + j) != needle.get_char(j) {
                same = false;
            }
            j = j + 1;
        }
        if same {
            assert(hay@.subrange(i as int, i + needle@.len()) =~= needle@);
            return true;
        }
        assert(hay@.subrange(i as int, i + m) != needle@) by {
            let k = choose|k: int| 0 <= k < m && hay@[i + k] != needle@[k];
            assert(hay@.subrange(i as int, i + m)[k] == hay@[i + k]);
        }
        i = i + 1;
    }
    assert forall|k: int| 0 <= k && k + needle@.len() <= hay@.len() implies
        #[trigger] hay@.subrange(k, k + needle@.len()) != needle@ by {
        assert(k < i);
    }
    false
}

/// Whether a content-type header (when present and readable) announces JSON.
pub fn is_json_content_type(header: Option<&str>) -> (res: bool)
    ensures
        res == (header matches Some(h) && contains_text(h@, "application/json"@)),
{
    match header {
        None => false,
        Some(h) => text_contains(h, "application/json"),
    }
}

/// The reply of the server to the Google sign-in callback.
#[derive(Clone, Debug)]
pub struct ApiResponse {
    pub status: String,
    pub token: String,
}

/// How the Google callback is forwarded to the server.
#[derive(Clone, Copy, Debug, PartialEq, Eq, Structural)]
pub enum CallbackRequest {
    /// A plain get: signing in with Google.
    SignIn,
    /// A put with the stored token: linking Google to the signed-in account
    /// (the link marker is cleared first).
    Link,
}

/// How the Google callback is forwarded, from the stored link marker:
/// "false" (set by the login page) or none means signing in; anything else
/// (set by the profile page) means linking.
pub fn google_callback_request(enable_google: Option<String>) -> (res: CallbackRequest)
    ensures
        res == (match enable_google {
            Some(v) => if v@ == "false"@ { CallbackRequest::SignIn } else { CallbackRequest::Link },
            None => CallbackRequest::SignIn,
        }),
{
    match enable_google {
        Some(v) => if v == "false".to_owned() { CallbackRequest::SignIn } else { CallbackRequest::Link },
        None => CallbackRequest::SignIn,
    }
}

/// What linking Google writes to local storage before the callback is
/// forwarded: the link marker "enable_google" cleared.
pub fn google_link_storage() -> (res: (String, String))
    ensures
        res.0@ == "enable_google"@,
        res.1@.len() == 0,
{
    ("enable_google".to_owned(), String::new())
}

/// What the Google callback page does with the reply.
#[derive(Clone, Debug)]
pub enum CallbackOutcome {
    /// Signed in: this value is stored as the token, this notice shown, and this
    /// page (the profile) opens. The loading screen goes.
    SignedIn(String, NotificationData, Route),
    /// Failed: this notice, and this page (the login page) opens. The loading
    /// screen goes.
    Failed(NotificationData, Route),
}

/// The outcome of the Google callback: the request failed to go out; the status was
/// not a success; the reply was not JSON; its body did not parse; the server refused;
/// or the token.
pub fn google_callback_outcome(network_ok: bool, success: bool, json: bool, body: Option<ApiResponse>) -> (res: CallbackOutcome)
    ensures
        !network_ok ==> (res matches CallbackOutcome::Failed(n, r) && r is Login && notification::is_error(
            n,
            "Network request failed."@,
        )),
        network_ok && !success ==> (res matches CallbackOutcome::Failed(n, r) && r is Login && notification::is_error(
            n,
            "Failed to fetch user details"@,
        )),
        network_ok && success && !json ==> (res matches CallbackOutcome::Failed(n, r) && r is Login
            && notification::is_error(n, "Response did not contain JSON content"@)),
        network_ok && success && json && body is None ==> (res matches CallbackOutcome::Failed(n, r) && r is Login
            && notification::is_error(n, "Failed to parse user info"@)),
        network_ok && success && json && body is Some && body->0.status@ != "success"@ ==> (res matches CallbackOutcome::Failed(
            n,
            r,
        ) && r is Login && notification::is_error(n, "Google login failed"@)),
        network_ok && success && json && body is Some && body->0.status@ == "success"@ ==> (res matches CallbackOutcome::SignedIn(
            t,
            n,
            r,
        ) && r is Profile && t@ == "Bearer "@ + body->0.token@ && notification::is_success_notice(
            n,
            "Google login success"@,
        )),
{
    if !network_ok {
        CallbackOutcome::Failed(NotificationData::error("Network request failed."), Route::Login)
    } else if !success {
        CallbackOutcome::Failed(NotificationData::error("Failed to fetch user details"), Route::Login)
    } else if !json {
        CallbackOutcome::Failed(NotificationData::error("Response did not contain JSON content"), Route::Login)
    } else {
        match body {
            None => CallbackOutcome::Failed(NotificationData::error("Failed to parse user info"), Route::Login),
            Some(b) => {
                if b.status == "success".to_owned() {
                    CallbackOutcome::SignedIn(
                        bearer_token(b.token.as_str()),
                        NotificationData::success("Google login success"),
                        Route::Profile,
                    )
                } else {
                    CallbackOutcome::Failed(NotificationData::error("Google login failed"), Route::Login)
                }
            },
        }
    }
}

/// What a "sign in with ..." or "link ..." button does with the reply that
/// should carry the provider's address.
#[derive(Clone, Debug)]
pub enum OauthOutcome {
    /// The browser goes to this address (after the page stores its marker).
    Redirect(String),
    /// This error notice.
    Failed(NotificationData),
}

/// The outcome of asking the server for a provider's sign-in address: the
/// status was not a success; the body did not parse as a map; the map had no
/// "url"; or the address. `network_text` is what the page says when the request
/// failed to go out.
fn oauth_outcome(network_ok: bool, success: bool, body: Option<Option<String>>, network_text: &str) -> (res: OauthOutcome)
    ensures
        !network_ok ==> (res matches OauthOutcome::Failed(n) && notification::is_error(n, network_text@)),
        network_ok && !success ==> (res matches OauthOutcome::Failed(n) && notification::is_error(
            n,
            "Failed to sign in"@,
        )),
        network_ok && success && body is None ==> (res matches OauthOutcome::Failed(n)
            && notification::is_error(n, "Failed to deserialize response"@)),
        network_ok && success && body == Some(None::<String>) ==> (res matches OauthOutcome::Failed(n)
            && notification::is_error(n, "URL not found in response"@)),
        network_ok && success && (body matches Some(Some(u))) ==> (res matches OauthOutcome::Redirect(
            v,
        ) && v == body->0->0),
{
    if !network_ok {
        OauthOutcome::Failed(NotificationData::error(network_text))
    } else if !success {
        OauthOutcome::Failed(NotificationData::error("Failed to sign in"))
    } else {
        match body {
            None => OauthOutcome::Failed(NotificationData::error("Failed to deserialize response")),
            Some(None) => OauthOutcome::Failed(NotificationData::error("URL not found in response")),
            Some(Some(u)) => OauthOutcome::Redirect(u),
        }
    }
}

/// What a sign-in button with a provider gives, from the raw outcome of its
/// request: `network_text` when it failed to go out.
pub open spec fn oauth_result(
    res: OauthOutcome,
    network_ok: bool,
    success: bool,
    body: Option<Option<String>>,
    network_text: Seq<char>,
) -> bool {
    &&& !network_ok ==> (res matches OauthOutcome::Failed(n) && notification::is_error(n, network_text))
    &&& network_ok && !success ==> (res matches OauthOutcome::Failed(n) && notification::is_error(
        n,
        "Failed to sign in"@,
    ))
    &&& network_ok && success && body is None ==> (res matches OauthOutcome::Failed(n) && notification::is_error(
        n,
        "Failed to deserialize response"@,
    ))
    &&& network_ok && success && body == Some(None::<String>) ==> (res matches OauthOutcome::Failed(n)
        && notification::is_error(n, "URL not found in response"@))
    &&& network_ok && success && (body matches Some(Some(u))) ==> (res matches OauthOutcome::Redirect(v) && v
        == body->0->0)
}

/// The login page's Instagram button ("Please check your internet connection"
/// when the request fails to go out).
pub fn login_instagram_outcome(network_ok: bool, success: bool, body: Option<Option<String>>) -> (res: OauthOutcome)
    ensures
        oauth_result(res, network_ok, success, body, "Please check your internet connection"@),
{
    oauth_outcome(network_ok, success, body, "Please check your internet connection")
}

/// The profile page's button that links a Google account ("Check your internet
/// connection" when the request fails to go out).
pub fn profile_google_outcome(network_ok: bool, success: bool, body: Option<Option<String>>) -> (res: OauthOutcome)
    ensures
        oauth_result(res, network_ok, success, body, "Check your internet connection"@),
{
    oauth_outcome(network_ok, success, body, "Check your internet connection")
}

/// The profile page's button that links an Instagram account ("Check internet
/// connection" when the request fails to go out).
pub fn profile_instagram_outcome(network_ok: bool, success: bool, body: Option<Option<String>>) -> (res: OauthOutcome)
    ensures
        oauth_result(res, network_ok, success, body, "Check internet connection"@),
{
    oauth_outcome(network_ok, success, body, "Check internet connection")
}

} // verus!
