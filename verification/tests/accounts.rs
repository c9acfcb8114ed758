use dancebattlez::admin::{
    admin_row, lookup_needed, lookup_outcome, no_user, role_name, role_setup_success, toggle_role,
    verify_success, AdminSelectMatch, GetUserRes, LookupOutcome, Role,
};
use dancebattlez::auth::{
    check_reset_password, check_resend_email, check_signup_password, google_callback_outcome, google_link_storage,
    google_callback_request, invitation_done_storage, invitation_email, invitation_outcome,
    is_json_content_type, login_google_outcome, login_instagram_outcome, login_outcome, oauth_marker, profile_google_outcome, profile_instagram_outcome,
    reset_email_reply, reset_password_reply, reset_request, resend_outcome, signup_done_storage, signup_outcome, text_contains, validate_password, ApiResponse, CallbackOutcome,
    CallbackRequest, FormOutcome, LoginGoogle, LoginOutcome, LoginResModel, OauthOutcome,
};
use dancebattlez::notification::NotificationType;
use dancebattlez::profile::{
    check_email, check_profile_password, check_username, email_step, password_change, profile_load, username_change, with_email,
    with_username, ProfileLoad, TokenChange, TokenResModel, UserResModel,
};
use dancebattlez::router::{live_battle_route, match_route, Route};
use dancebattlez::session::{
    auth_check, bearer_token, coming_soon, go_unauthorized, header_nav, http_method, install_notice,
    login_url, plan_request, sign_out, stored_value, AuthCheckResModel, Method, SharedData,
};

#[test]
fn password_strength() {
    assert!(validate_password("Abcdef1!"));
    assert!(!validate_password("Abcde1!"));
    assert!(!validate_password("abcdef1!"));
    assert!(!validate_password("ABCDEF1!"));
    assert!(!validate_password("Abcdefg!"));
    assert!(!validate_password("Abcdefg1"));
    assert!(!validate_password("Abc def1 "));
    assert!(validate_password("Zz9_zzzz"));
}

#[test]
fn new_password_checks() {
    let n = check_signup_password("Abcdef1!", "Abcdef1?").unwrap();
    assert_eq!(n.content, "Password does not match");
    assert_eq!(n.notification_type, NotificationType::Error);
    let n = check_reset_password("Abcdef1!", "Abcdef1?").unwrap();
    assert_eq!(n.content, "Password doesn't match");
    let n = check_reset_password("short", "short").unwrap();
    assert_eq!(
        n.content,
        "Passwords must be at least 8 characters, and must have capital, lowercase, number and special characters"
    );
    assert!(check_signup_password("Abcdef1!", "Abcdef1!").is_none());
    assert!(check_reset_password("Abcdef1!", "Abcdef1!").is_none());
}

fn text_of(o: FormOutcome) -> Option<(String, NotificationType)> {
    match o {
        FormOutcome::Done(n) | FormOutcome::Failed(n) => Some((n.content, n.notification_type)),
        FormOutcome::Silent => None,
    }
}

#[test]
fn signup_replies() {
    assert_eq!(text_of(signup_outcome(200)), Some(("User registered successfully".to_string(), NotificationType::Success)));
    assert_eq!(text_of(signup_outcome(403)).unwrap().0, "ReCAPTCHA error, please resend");
    assert_eq!(text_of(signup_outcome(500)).unwrap().0, "Server error");
    assert_eq!(text_of(signup_outcome(409)).unwrap().0, "Email or Username already registered");
    assert_eq!(text_of(signup_outcome(208)).unwrap().0, "You 've already registered but your account need email verify.");
    assert_eq!(text_of(signup_outcome(400)).unwrap().1, NotificationType::Error);
    assert_eq!(text_of(signup_outcome(418)), None);
}

#[test]
fn invitation_replies() {
    assert_eq!(text_of(invitation_outcome(200)).unwrap().0, "Email verify successfully");
    assert_eq!(text_of(invitation_outcome(400)).unwrap().0, "Email or Invitation code doesn't match");
    assert_eq!(text_of(invitation_outcome(408)).unwrap().0, "Invitation code expired");
    assert_eq!(text_of(invitation_outcome(409)), None);
    assert_eq!(text_of(resend_outcome(200)).unwrap().0, "Resend invitation code");
    assert_eq!(text_of(resend_outcome(409)).unwrap().0, "Email or Username already registered");
    assert_eq!(text_of(resend_outcome(400)).unwrap().0, "Email doesn't exist");
    assert_eq!(check_resend_email("").unwrap().content, "Input email");
    assert!(check_resend_email("a@b.c").is_none());
}

#[test]
fn reset_replies() {
    let (n, next) = reset_email_reply(true, 200, None);
    assert_eq!(n.content, "Email Sent successfully");
    assert_eq!(n.notification_type, NotificationType::Success);
    assert!(next);
    let (n, next) = reset_email_reply(true, 400, Some("No such email".to_string()));
    assert_eq!(n.content, "No such email");
    assert!(!next);
    let (n, next) = reset_email_reply(false, 0, None);
    assert_eq!(n.content, "Check Internet Connection");
    assert!(!next);
    let (n, route) = reset_password_reply(true, 200, None);
    assert_eq!(n.content, "Password Changed");
    assert!(matches!(route, Some(Route::Login)));
    let (n, route) = reset_password_reply(true, 400, Some("Wrong code".to_string()));
    assert_eq!(n.content, "Wrong code");
    assert_eq!(n.notification_type, NotificationType::Error);
    assert!(route.is_none());
    let (n, route) = reset_password_reply(true, 500, None);
    assert_eq!(n.content, "Response Error");
    assert!(route.is_none());
    let (n, route) = reset_password_reply(false, 0, None);
    assert_eq!(n.content, "Check your internet connection");
    assert!(route.is_none());
    let r = reset_request("a@b.c", "Abcdef1!", "1234");
    assert_eq!((r.email.as_str(), r.password.as_str(), r.code.as_str()), ("a@b.c", "Abcdef1!", "1234"));
}

#[test]
fn invitation_email_round_trip() {
    let (key, value, route) = signup_done_storage("me@x.io");
    assert_eq!(key, "invitation_email");
    assert!(matches!(route, Route::Invitation));
    assert_eq!(invitation_email(Some(value)), "me@x.io");
    let (key, value, route) = invitation_done_storage();
    assert_eq!(key, "invitation_email");
    assert!(matches!(route, Route::Login));
    assert_eq!(invitation_email(Some(value)), "");
    assert_eq!(invitation_email(None), "");
}

#[test]
fn login_google_button() {
    match login_google_outcome(true, true, Some(Some("https://g.example/auth".to_string()))) {
        LoginGoogle::Redirect(u) => assert_eq!(u, "https://g.example/auth"),
        _ => panic!(),
    }
    assert!(matches!(login_google_outcome(true, true, Some(None)), LoginGoogle::LogOnly { exit_loading: false }));
    assert!(matches!(login_google_outcome(true, true, None), LoginGoogle::LogOnly { exit_loading: true }));
    assert!(matches!(login_google_outcome(false, false, None), LoginGoogle::LogOnly { exit_loading: true }));
    assert_eq!(oauth_marker(false), "false");
    assert_eq!(oauth_marker(true), "true");
}

#[test]
fn login_replies() {
    match login_outcome(200, Some(LoginResModel { token: "tok".to_string() })) {
        LoginOutcome::SignedIn(t, n, d, r) => {
            assert_eq!(t, "Bearer tok");
            assert_eq!(n.content, "Login success");
            assert!(d.auth_flag && !d.loading_flag);
            assert!(matches!(r, Route::Profile));
        }
        _ => panic!("expected sign-in"),
    }
    match login_outcome(200, None) {
        LoginOutcome::Warning(w) => assert_eq!(w, "Server Error"),
        _ => panic!("expected a warning"),
    }
    match login_outcome(401, None) {
        LoginOutcome::Failed(n) => assert_eq!(n.content, "Email or Password doesn't match"),
        _ => panic!("expected a refusal"),
    }
    match login_outcome(403, None) {
        LoginOutcome::Failed(n) => assert_eq!(n.content, "reCAPTCHA error, please resend"),
        _ => panic!("expected a refusal"),
    }
    assert!(matches!(login_outcome(302, None), LoginOutcome::Silent));
}

#[test]
fn google_callback() {
    assert_eq!(google_callback_request(None), CallbackRequest::SignIn);
    assert_eq!(google_callback_request(Some("false".to_string())), CallbackRequest::SignIn);
    assert_eq!(google_callback_request(Some("true".to_string())), CallbackRequest::Link);
    let (key, value) = google_link_storage();
    assert_eq!((key.as_str(), value.as_str()), ("enable_google", ""));
    let body = ApiResponse { status: "success".to_string(), token: "g1".to_string() };
    match google_callback_outcome(true, true, true, Some(body)) {
        CallbackOutcome::SignedIn(t, n, r) => {
            assert_eq!(t, "Bearer g1");
            assert_eq!(n.content, "Google login success");
            assert!(matches!(r, Route::Profile));
        }
        _ => panic!("expected sign-in"),
    }
    let body = ApiResponse { status: "error".to_string(), token: String::new() };
    let fail = |o: CallbackOutcome| match o {
        CallbackOutcome::Failed(n, r) => {
            assert!(matches!(r, Route::Login));
            n.content
        }
        _ => panic!("expected failure"),
    };
    assert_eq!(fail(google_callback_outcome(true, true, true, Some(body))), "Google login failed");
    assert_eq!(fail(google_callback_outcome(true, true, true, None)), "Failed to parse user info");
    assert_eq!(fail(google_callback_outcome(true, true, false, None)), "Response did not contain JSON content");
    assert_eq!(fail(google_callback_outcome(true, false, true, None)), "Failed to fetch user details");
    assert_eq!(fail(google_callback_outcome(false, true, true, None)), "Network request failed.");
}

#[test]
fn json_content_types() {
    assert!(is_json_content_type(Some("application/json")));
    assert!(is_json_content_type(Some("application/json; charset=utf-8")));
    assert!(!is_json_content_type(Some("text/html")));
    assert!(!is_json_content_type(Some("application/jso")));
    assert!(!is_json_content_type(None));
    assert!(text_contains("abcabd", "abd"));
    assert!(text_contains("x", ""));
    assert!(!text_contains("ab", "abc"));
}

#[test]
fn oauth_links() {
    match profile_google_outcome(true, true, Some(Some("https://accounts/x".to_string()))) {
        OauthOutcome::Redirect(u) => assert_eq!(u, "https://accounts/x"),
        _ => panic!("expected a redirect"),
    }
    let fail = |o: OauthOutcome| match o {
        OauthOutcome::Failed(n) => n.content,
        _ => panic!("expected failure"),
    };
    assert_eq!(fail(login_instagram_outcome(true, true, Some(None))), "URL not found in response");
    assert_eq!(fail(profile_instagram_outcome(true, true, None)), "Failed to deserialize response");
    assert_eq!(fail(profile_google_outcome(true, false, None)), "Failed to sign in");
    assert_eq!(fail(profile_instagram_outcome(false, true, None)), "Check internet connection");
    assert_eq!(fail(profile_google_outcome(false, true, None)), "Check your internet connection");
    assert_eq!(fail(login_instagram_outcome(false, true, None)), "Please check your internet connection");
}

#[test]
fn storage_and_requests() {
    assert_eq!(stored_value(None), None);
    assert_eq!(stored_value(Some(String::new())), None);
    assert_eq!(stored_value(Some("v".to_string())), Some("v".to_string()));
    assert_eq!(bearer_token("abc"), "Bearer abc");
    assert_eq!(stored_value(Some(bearer_token(""))), Some("Bearer ".to_string()));
    assert_eq!(login_url("https://h"), "https://h/login");
    assert_eq!(http_method("get"), Method::Get);
    assert_eq!(http_method("post"), Method::Post);
    assert_eq!(http_method("put"), Method::Put);
    assert_eq!(http_method("delete"), Method::Delete);
    assert_eq!(http_method("GET"), Method::Delete);
    let p = plan_request("post", true, Some("Bearer t".to_string()), true);
    assert_eq!(p.method, Method::Post);
    assert!(p.sends_body);
    assert_eq!(p.authorization, Some("Bearer t".to_string()));
    assert!(!p.redirect_to_login);
    assert!(p.with_recaptcha);
    let p = plan_request("get", true, None, false);
    assert!(!p.sends_body);
    assert!(p.redirect_to_login);
    assert_eq!(p.authorization, None);
    let p = plan_request("put", false, Some("Bearer t".to_string()), false);
    assert_eq!(p.authorization, None);
    assert!(!p.redirect_to_login);
}

#[test]
fn session_flags() {
    let d = SharedData::new();
    assert!(!d.auth_flag && !d.loading_flag);
    let d = d.with_auth(true).show_loading();
    assert!(d.auth_flag && d.loading_flag);
    let d = d.exit_loading();
    assert!(d.auth_flag && !d.loading_flag);
    let (token, d, route) = sign_out();
    assert_eq!(token, "");
    assert!(!d.auth_flag);
    assert!(matches!(route, Route::Login));
    let (token, route) = go_unauthorized();
    assert_eq!(token, "");
    assert!(matches!(route, Route::Login));
    assert_eq!(coming_soon().content, "Coming Soon");
}

#[test]
fn token_checks() {
    let c = auth_check(false, true, 200, None);
    assert!(!c.auth_flag);
    assert_eq!(c.user_role, Some(String::new()));
    let c = auth_check(true, false, 0, None);
    assert!(c.auth_flag);
    assert_eq!(c.user_role, None);
    let c = auth_check(true, true, 401, None);
    assert!(!c.auth_flag);
    assert_eq!(c.admin_flag, Some(false));
    let c = auth_check(true, true, 200, Some(AuthCheckResModel { result: true, admin: true }));
    assert!(c.auth_flag);
    assert_eq!(c.user_role, Some("admin".to_string()));
    assert_eq!(c.admin_flag, Some(true));
    let c = auth_check(true, true, 200, Some(AuthCheckResModel { result: false, admin: false }));
    assert!(!c.auth_flag);
    assert_eq!(c.admin_flag, None);
    let c = auth_check(true, true, 200, None);
    assert!(!c.auth_flag);
}

#[test]
fn header() {
    let h = header_nav(true, false, true);
    assert!(h.reply_link && h.logout_button && !h.login_link && !h.admin_menu && h.install_button);
    let h = header_nav(false, true, false);
    assert!(!h.reply_link && !h.logout_button && h.login_link && h.admin_menu);
    assert_eq!(install_notice("safari").unwrap().notification_type, NotificationType::Error);
    assert!(install_notice("ios").unwrap().content.starts_with("To install this app"));
    assert!(install_notice("installed").is_none());
}

#[test]
fn routes() {
    match match_route("m3") {
        Route::Match { match_id } => assert_eq!(match_id, "m3"),
        _ => panic!("expected a match route"),
    }
    match live_battle_route("LB") {
        Route::LiveBattleShow { code } => assert_eq!(code, "LB"),
        _ => panic!("expected a live battle route"),
    }
}

fn account() -> UserResModel {
    UserResModel {
        username: "ana".to_string(),
        email: "ana@x.io".to_string(),
        google_email: String::new(),
        instagram_name: "ana.ig".to_string(),
        voter: true,
        battler: true,
        judger: false,
        admin: false,
    }
}

#[test]
fn profile_updates() {
    let a = account();
    let b = with_username(&a, "anna".to_string());
    assert_eq!(b.username, "anna");
    assert_eq!(b.email, "ana@x.io");
    assert_eq!(b.instagram_name, "ana.ig");
    assert!(b.battler && !b.judger);
    let c = with_email(&b, "anna@y.io".to_string());
    assert_eq!(c.email, "anna@y.io");
    assert_eq!(c.username, "anna");
    let e = UserResModel::empty();
    assert!(e.username.is_empty() && !e.admin);
}

#[test]
fn profile_replies() {
    assert!(matches!(profile_load(true, 200, Some(account())), ProfileLoad::Loaded(_)));
    assert!(matches!(profile_load(true, 200, None), ProfileLoad::ToLogin(None)));
    match profile_load(true, 401, None) {
        ProfileLoad::Unauthorized(n) => assert_eq!(n.content, "You are not logged in"),
        _ => panic!(),
    }
    match profile_load(true, 403, None) {
        ProfileLoad::ToLogin(Some(n)) => assert_eq!(n.content, "reCAPTCHA Error"),
        _ => panic!(),
    }
    match profile_load(true, 500, None) {
        ProfileLoad::ToLogin(Some(n)) => assert_eq!(n.content, "Server Error"),
        _ => panic!(),
    }
    match profile_load(false, 0, None) {
        ProfileLoad::Failed(n) => assert_eq!(n.content, "Please check your internet connection"),
        _ => panic!(),
    }
    assert_eq!(check_username("").unwrap().content, "Please input username");
    assert!(check_username("bob").is_none());
    assert_eq!(check_email("").unwrap().content, "Please input email");
    assert!(check_email("a@b.c").is_none());
    assert!(check_profile_password("weak").is_some());
    assert!(check_profile_password("Abcdef1!").is_none());
}

#[test]
fn token_changes() {
    match username_change(true, 200, Some(TokenResModel { token: "n".to_string() })) {
        TokenChange::Changed(t, n) => {
            assert_eq!(t, "Bearer n");
            assert_eq!(n.content, "Username changed");
        }
        _ => panic!(),
    }
    match username_change(true, 208, None) {
        TokenChange::Refused(n) => assert_eq!(n.content, "This username already used"),
        _ => panic!(),
    }
    match username_change(true, 403, None) {
        TokenChange::Refused(n) => assert_eq!(n.notification_type, NotificationType::Success),
        _ => panic!(),
    }
    assert!(matches!(username_change(true, 401, None), TokenChange::Unauthorized));
    match password_change(true, 200, Some(TokenResModel { token: "p".to_string() })) {
        TokenChange::Changed(t, n) => {
            assert_eq!(t, "Bearer p");
            assert_eq!(n.content, "Password changed successfully");
        }
        _ => panic!(),
    }
    match password_change(true, 403, None) {
        TokenChange::Refused(n) => assert_eq!(n.notification_type, NotificationType::Error),
        _ => panic!(),
    }
    match password_change(true, 208, None) {
        TokenChange::Refused(n) => assert_eq!(n.content, "Server Error"),
        _ => panic!(),
    }
    match username_change(false, 0, None) {
        TokenChange::Refused(n) => {
            assert_eq!(n.content, "Check your internet connection");
            assert_eq!(n.notification_type, NotificationType::Error);
        }
        _ => panic!(),
    }
    match password_change(false, 0, None) {
        TokenChange::Refused(n) => assert_eq!(n.content, "Check internet connection"),
        _ => panic!(),
    }
}

#[test]
fn email_steps() {
    let ok = email_step(true, 200, None, true).unwrap();
    assert_eq!(ok.content, "Invitation code sent to your email");
    let ok = email_step(true, 200, None, false).unwrap();
    assert_eq!(ok.content, "Email changed successfully");
    let e = email_step(false, 0, None, true).unwrap_err();
    assert_eq!(e.notices[0].content, "Check your internet");
    assert_eq!(e.notices[0].notification_type, NotificationType::Success);
    let e = email_step(false, 0, None, false).unwrap_err();
    assert_eq!(e.notices[0].content, "Server Error");
    let e = email_step(true, 401, Some("expired".to_string()), true).unwrap_err();
    assert!(e.unauthorized);
    assert_eq!(e.notices.len(), 2);
    assert_eq!(e.notices[0].content, "Please loin fist");
    assert_eq!(e.notices[1].content, "expired");
    let e = email_step(true, 401, None, false).unwrap_err();
    assert!(e.unauthorized);
    assert_eq!(e.notices.len(), 1);
    assert_eq!(e.notices[0].content, "Response Error");
    let e = email_step(true, 400, None, true).unwrap_err();
    assert!(!e.unauthorized);
    assert_eq!(e.notices.len(), 1);
}

fn battle_row(a_verify: bool, b_video: &str) -> AdminSelectMatch {
    AdminSelectMatch {
        match_id: "m".to_string(),
        a_camp_username: "a".to_string(),
        b_camp_username: "b".to_string(),
        rules: String::new(),
        responder_reply: String::new(),
        a_video: "va".to_string(),
        a_img: "ia".to_string(),
        b_video: b_video.to_string(),
        b_img: String::new(),
        a_verify,
        b_verify: false,
        voting_period: 7,
    }
}

#[test]
fn admin_rows() {
    let r = admin_row(&battle_row(false, "vb"));
    assert!(r.a_verify_button);
    assert!(!r.b_verify_button);
    assert!(r.b_video_link);
    assert!(!r.b_image_link);
    assert!(!r.reply_text);
    let r = admin_row(&battle_row(true, "vb"));
    assert!(!r.a_verify_button && r.b_verify_button);
    let r = admin_row(&battle_row(true, ""));
    assert!(!r.b_verify_button);
    assert_eq!(verify_success().content, "Verify Success");
}

#[test]
fn admin_roles() {
    let u = GetUserRes { exist: true, admin: false, voter: true, battler: false, judge: false };
    let (v, flag) = toggle_role(u, Role::Battler);
    assert!(flag && v.battler && v.voter && !v.admin && v.exist);
    let (w, flag) = toggle_role(v, Role::Battler);
    assert!(!flag);
    assert_eq!(w, u);
    let (_, flag) = toggle_role(u, Role::Voter);
    assert!(!flag);
    assert_eq!(role_name(Role::Admin), "admin");
    assert_eq!(role_name(Role::Judge), "judge");
    assert_eq!(no_user(), GetUserRes { exist: false, admin: false, voter: false, battler: false, judge: false });
    assert!(!lookup_needed(""));
    assert!(lookup_needed("bo"));
    assert_eq!(role_setup_success().content, "User role setup success");
}

#[test]
fn admin_lookups() {
    let u = GetUserRes { exist: true, admin: true, voter: false, battler: false, judge: true };
    match lookup_outcome(true, 200, None, "", Some(u)) {
        LookupOutcome::Found(l, None) => {
            assert_eq!(l.user_info, u);
            assert!(l.exist_flag);
        }
        _ => panic!(),
    }
    match lookup_outcome(true, 404, Some("No user".to_string()), "", None) {
        LookupOutcome::Found(l, Some(n)) => {
            assert!(!l.exist_flag);
            assert_eq!(n.content, "Response Error : No user");
        }
        _ => panic!(),
    }
    match lookup_outcome(true, 404, None, "bad body", None) {
        LookupOutcome::Found(_, Some(n)) => assert_eq!(n.content, "Response Error : bad body"),
        _ => panic!(),
    }
    assert!(matches!(lookup_outcome(true, 401, None, "", None), LookupOutcome::Unauthorized));
    assert!(matches!(lookup_outcome(false, 200, None, "", Some(u)), LookupOutcome::Failed(_)));
    match lookup_outcome(true, 200, None, "", None) {
        LookupOutcome::Found(l, None) => assert!(!l.exist_flag),
        _ => panic!(),
    }
}

#[test]
fn profile_updates_commute() {
    let a = account();
    let x = with_email(&with_username(&a, "kai".to_string()), "kai@z.io".to_string());
    let y = with_username(&with_email(&a, "kai@z.io".to_string()), "kai".to_string());
    assert_eq!((x.username.clone(), x.email.clone()), (y.username.clone(), y.email.clone()));
    assert_eq!((x.voter, x.battler, x.judger, x.admin), (y.voter, y.battler, y.judger, y.admin));
    let z = with_username(&with_username(&a, "one".to_string()), "two".to_string());
    assert_eq!(z.username, "two");
    assert_eq!(z.email, a.email);
}
