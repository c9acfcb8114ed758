use dancebattlez::battle::{
    battle_load, token_or_empty, BattleLoad, SelectedMatch, ShowSelectedBattleResModel,
    battle_card, battle_view, camp_marks, fire_prompt, live_battle_share_url, match_screen,
    match_share_url, waiting_prompt, BattleListQuery, BattleStatus, CampMark, CardKind, MatchScreen,
    ReplyPrompt, StatusIcon, WinnerStatus,
};
use dancebattlez::battle_reply::{
    back_to_aim, check_reply, check_uploads, reply_not_sent, reply_request, reply_stored,
    GetSignURLResModel,
};
use dancebattlez::callout::{
    response_list_load, GetResponseResModel,
    callout_screen, is_mp4_file, shows_hundred_badge, shows_instagram, CalloutFlow, CalloutScreen,
    UserListQuery, UserSelect,
};
use dancebattlez::live_battle::{
    check_event_code, check_judges, copy_notice, default_rules, judges_unique, not_judges_text,
    setup_outcome, LiveBattleSetupRes, SetupOutcome,
};
use dancebattlez::notification::NotificationType;
use dancebattlez::vote::VotingType;

fn user(name: &str) -> UserSelect {
    UserSelect {
        _id: format!("id-{}", name),
        username: name.to_string(),
        battler_score_bits: 0.0f64.to_bits(),
        instagram_name: String::new(),
        instagram_id: String::new(),
        matches_won: 1,
        matches_lost: 2,
        matches_withdrawn: 0,
        callout: 3,
        response: 4,
        one_hundred_badge: 0,
        first_tourney_badge: String::new(),
    }
}

#[test]
fn user_cards() {
    let mut u = user("ana");
    assert!(!shows_instagram(&u));
    u.instagram_id = "123".to_string();
    assert!(!shows_instagram(&u));
    u.instagram_name = "ana.dance".to_string();
    assert!(shows_instagram(&u));
    assert!(!shows_hundred_badge(&u));
    u.one_hundred_badge = 1;
    assert!(shows_hundred_badge(&u));
}

#[test]
fn mp4_files() {
    assert!(is_mp4_file("clip.mp4"));
    assert!(is_mp4_file("CLIP.MP4"));
    assert!(is_mp4_file("a.b.Mp4"));
    assert!(is_mp4_file("mp4"));
    assert!(!is_mp4_file("clip.mov"));
    assert!(!is_mp4_file("clip.mp4.txt"));
    assert!(!is_mp4_file("clip.mp"));
    assert!(!is_mp4_file("clip."));
    assert!(!is_mp4_file(""));
    assert!(!is_mp4_file("clip.mp44"));
}

#[test]
fn callout_flow() {
    let mut f = CalloutFlow::new();
    f.select_user(false, user("bo"));
    assert_eq!(f.page_flag, 0);
    assert!(f.selected_user.is_none());
    f.select_user(true, user("bo"));
    assert_eq!(f.page_flag, 1);
    assert_eq!(f.selected_user.as_ref().unwrap().username, "bo");
    f.aim();
    assert_eq!(f.page_flag, 1);
    let n = f.choose_file("dance.avi", "blob:x".to_string()).unwrap();
    assert_eq!(n.content, "Select Correct file");
    assert_eq!(f.video_content, "");
    assert!(f.choose_file("dance.MP4", "blob:x".to_string()).is_none());
    assert_eq!(f.video_content, "blob:x");
    f.aim();
    assert_eq!(f.page_flag, 2);
    f.back_to_list();
    assert_eq!(f.page_flag, 0);
    assert!(f.selected_user.is_none());
    assert_eq!(f.video_content, "");
}

#[test]
fn ready_drops_the_video() {
    let mut f = CalloutFlow::new();
    f.select_user(true, user("cy"));
    f.choose_file("a.mp4", "blob:a".to_string());
    f.ready();
    assert_eq!(f.video_content, "");
    assert_eq!(f.page_flag, 1);
    f.aim();
    assert_eq!(f.page_flag, 1);
}

#[test]
fn screens() {
    assert_eq!(callout_screen(0), CalloutScreen::UserList);
    assert_eq!(callout_screen(1), CalloutScreen::Aim);
    assert_eq!(callout_screen(2), CalloutScreen::Judge);
    assert_eq!(callout_screen(9), CalloutScreen::UserList);
    assert_eq!(match_screen(0), MatchScreen::ShowBattle);
    assert_eq!(match_screen(1), MatchScreen::Aim);
    assert_eq!(match_screen(2), MatchScreen::Reply);
}

#[test]
fn user_list_search_resets_page() {
    let mut q = UserListQuery::new();
    assert_eq!((q.count, q.pagination), (5, 1));
    q.pagination = 4;
    q.set_search("ka".to_string());
    assert_eq!(q.search, "ka");
    assert_eq!(q.pagination, 1);
}

#[test]
fn battle_views() {
    let v = battle_view(BattleStatus::WaitingResponse, true, VotingType::Not);
    assert_eq!(v.status_icon, StatusIcon::Stamp);
    assert!(!v.show_reply_side);
    assert_eq!(v.prompt, ReplyPrompt::Fire);
    assert!(!v.show_vote_form);
    assert!(!v.show_vote_list);
    let v = battle_view(BattleStatus::WaitingResponse, false, VotingType::Unofficial);
    assert_eq!(v.prompt, ReplyPrompt::Waiting);
    assert!(v.show_vote_form);
    let v = battle_view(BattleStatus::BattleClosed, true, VotingType::Unofficial);
    assert_eq!(v.status_icon, StatusIcon::Clock);
    assert!(v.show_reply_side);
    assert_eq!(v.prompt, ReplyPrompt::Nothing);
    assert!(v.show_vote_list);
    let v = battle_view(BattleStatus::Voting, false, VotingType::Official);
    assert!(!v.show_vote_list);
    assert!(v.show_vote_form);
}

#[test]
fn battle_texts() {
    assert_eq!(fire_prompt("zed"), "Fire to zed");
    assert_eq!(waiting_prompt("zed"), "Waiting zed's response");
    assert_eq!(match_share_url("https://d.com", "m7"), "https://d.com/match/m7");
    assert_eq!(live_battle_share_url("https://d.com", "ABC"), "https://d.com/live-battle/ABC");
}

#[test]
fn battle_cards_and_marks() {
    assert_eq!(camp_marks(WinnerStatus::WinnerA), (CampMark::Trophy, CampMark::Lost));
    assert_eq!(camp_marks(WinnerStatus::WinnerB), (CampMark::Lost, CampMark::Trophy));
    assert_eq!(camp_marks(WinnerStatus::NotDetermine), (CampMark::Undecided, CampMark::Undecided));
    let c = battle_card(BattleStatus::WaitingResponse, WinnerStatus::NotDetermine);
    assert_eq!(c.kind, CardKind::Waiting);
    assert!(!c.show_b_image);
    let c = battle_card(BattleStatus::BattleClosed, WinnerStatus::WinnerB);
    assert_eq!(c.kind, CardKind::Closed);
    assert_eq!(c.b_mark, CampMark::Trophy);
    assert!(c.show_b_image);
    assert_eq!(battle_card(BattleStatus::Voting, WinnerStatus::WinnerA).kind, CardKind::Voting);
}

#[test]
fn battle_list_filters() {
    let mut q = BattleListQuery::new();
    assert!(!q.show_take_backs && q.show_close && !q.show_incomplete);
    q.pagination = 3;
    q.toggle_close();
    assert!(!q.show_close);
    assert_eq!(q.pagination, 1);
    q.pagination = 2;
    q.toggle_close();
    assert!(q.show_close);
    q.toggle_take_backs();
    q.toggle_incomplete();
    assert!(q.show_take_backs && q.show_incomplete);
    q.set_search("battle".to_string());
    assert_eq!(q.search, "battle");
    assert_eq!(q.pagination, 1);
}

#[test]
fn reply_steps() {
    assert_eq!(check_reply("", "x").unwrap().content, "Please take a screen");
    assert_eq!(check_reply("blob:1", "").unwrap().content, "Please input your reply text");
    assert!(check_reply("blob:1", "my answer").is_none());
    assert_eq!(check_uploads(true, false).unwrap().content, "Upload failed");
    assert_eq!(check_uploads(false, true).unwrap().content, "Upload failed");
    assert!(check_uploads(true, true).is_none());
    let urls = GetSignURLResModel {
        video_id: "v1".to_string(),
        image_id: "i1".to_string(),
        video_url: "https://up/v".to_string(),
        image_url: "https://up/i".to_string(),
    };
    let r = reply_request("m1", "a1", &urls, "answer");
    assert_eq!(r.video_id, "v1");
    assert_eq!(r.image_id, "i1");
    assert_eq!(r.video_type, "mp4");
    assert_eq!(r.responder_reply, "answer");
    assert_eq!(r.a_camp_id, "a1");
    let n = reply_stored();
    assert_eq!(n.content, "Nice, please wait admin approve your callout request");
    assert_eq!(reply_not_sent().notification_type, NotificationType::Success);
    let (page, video, kind, image) = back_to_aim();
    assert_eq!(page, 1);
    assert!(video.is_empty() && kind.is_empty() && image.is_empty());
}

#[test]
fn judges_must_differ() {
    let v = |xs: &[&str]| xs.iter().map(|s| s.to_string()).collect::<Vec<String>>();
    assert!(judges_unique(&v(&["a", "b", "", "", "c"])));
    assert!(judges_unique(&v(&["", "", "", "", ""])));
    assert!(!judges_unique(&v(&["a", "b", "a", "", ""])));
    assert!(!judges_unique(&v(&["", "x", "", "", "x"])));
    assert_eq!(check_judges(&v(&["j", "j", "", "", ""])).unwrap().content, "Username must be uniqe");
    assert!(check_judges(&v(&["j", "k", "", "", ""])).is_none());
}

#[test]
fn live_battle_setup() {
    let res = LiveBattleSetupRes { result: vec![], id: "C0DE".to_string() };
    match setup_outcome(&res) {
        SetupOutcome::Created(n, code) => {
            assert_eq!(n.content, "Live Event Created");
            assert_eq!(code, "C0DE");
        }
        _ => panic!("expected creation"),
    }
    let res = LiveBattleSetupRes { result: vec!["al".to_string(), "bo".to_string()], id: String::new() };
    match setup_outcome(&res) {
        SetupOutcome::Refused(n) => {
            assert_eq!(n.content, "al, bo, are not judges");
            assert_eq!(n.notification_type, NotificationType::Error);
        }
        _ => panic!("expected a refusal"),
    }
    assert_eq!(not_judges_text(&vec![]), "are not judges");
    assert_eq!(check_event_code("").unwrap().content, "Input Event Code");
    assert!(check_event_code("X1").is_none());
    assert_eq!(copy_notice(true).content, "Link Copied");
    assert_eq!(copy_notice(false).content, "Can't Copy");
    assert!(default_rules().starts_with("Rules: Different songs."));
}

fn shown_battle() -> ShowSelectedBattleResModel {
    ShowSelectedBattleResModel {
        a_camp_information: user("ana"),
        b_camp_information: user("ben"),
        username_check: true,
        battle_information: SelectedMatch {
            match_id: "m1".to_string(),
            a_camp_username: "ana".to_string(),
            b_camp_username: "ben".to_string(),
            winner: WinnerStatus::NotDetermine,
            status: BattleStatus::Voting,
            a_camp_img_src: String::new(),
            b_camp_img_src: String::new(),
            a_camp_vid_src: "a.mp4".to_string(),
            b_camp_vid_src: "b.mp4".to_string(),
            judges: vec![],
            rules: "2 rounds".to_string(),
            a_camp_timestamp: 1,
            b_camp_timestamp: 2,
            b_reply: String::new(),
        },
        voting_type: VotingType::Official,
    }
}

#[test]
fn battle_page_load() {
    assert_eq!(token_or_empty(Some("Bearer t".to_string())), "Bearer t");
    assert_eq!(token_or_empty(None), "");
    match battle_load(true, 200, None, Some(shown_battle()), "") {
        BattleLoad::Loaded(b) => {
            assert!(b.username_check);
            assert_eq!(b.battle_information.match_id, "m1");
            assert_eq!(b.voting_type, VotingType::Official);
        }
        _ => panic!(),
    }
    match battle_load(true, 200, None, None, "missing field") {
        BattleLoad::Warning(w) => assert_eq!(w, "Response error : missing field"),
        _ => panic!(),
    }
    match battle_load(true, 404, Some("No battle".to_string()), None, "") {
        BattleLoad::Warning(w) => assert_eq!(w, "No battle"),
        _ => panic!(),
    }
    match battle_load(true, 500, None, None, "") {
        BattleLoad::Warning(w) => assert_eq!(w, "Response is not correct"),
        _ => panic!(),
    }
    match battle_load(false, 0, None, None, "") {
        BattleLoad::Warning(w) => assert_eq!(w, "Please check your internet connection"),
        _ => panic!(),
    }
}

#[test]
fn response_page_load() {
    let r = response_list_load(true, 200, None, Some(GetResponseResModel { data: vec![user("ana")] }), "");
    assert!(!r.unauthorized);
    assert_eq!(r.users.unwrap()[0].username, "ana");
    assert!(r.warning.is_none());
    let r = response_list_load(true, 401, None, None, "");
    assert!(r.unauthorized);
    assert_eq!(r.warning.unwrap(), "Response is not correct");
    let r = response_list_load(true, 400, Some("bad".to_string()), None, "");
    assert!(!r.unauthorized);
    assert_eq!(r.warning.unwrap(), "bad");
    let r = response_list_load(true, 200, None, None, "eof");
    assert_eq!(r.warning.unwrap(), "Response error : eof");
    let r = response_list_load(false, 0, None, None, "");
    assert!(!r.unauthorized);
    assert_eq!(r.warning.unwrap(), "Please check your internet connection");
}
