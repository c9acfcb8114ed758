use dancebattlez::text::parse_i32;
use dancebattlez::notification::NotificationType;
use dancebattlez::vote::{
    check_signature_upload, check_signed_vote, needs_signature, score_statement, signed_ballot,
    unofficial_ballot, vote_stored, vote_title, voting_type_code, VoteSlider, VoteTitle, VotingType,
};
use dancebattlez::vote_list::{score_line, shows_votes, vote_card, VoteBadge};
use dancebattlez::battle::BattleStatus;

#[test]
fn voting_type_codes() {
    assert_eq!(voting_type_code(VotingType::Not), 3);
    assert_eq!(voting_type_code(VotingType::Judge), 2);
    assert_eq!(voting_type_code(VotingType::Official), 1);
    assert_eq!(voting_type_code(VotingType::Unofficial), 0);
    assert_eq!(vote_title(1), VoteTitle::Official);
    assert_eq!(vote_title(2), VoteTitle::Judge);
    assert_eq!(vote_title(0), VoteTitle::Unofficial);
    assert_eq!(vote_title(3), VoteTitle::ToLogin);
    assert!(!needs_signature(0));
    assert!(needs_signature(2));
}

#[test]
fn slider_opens_even() {
    let s = VoteSlider::new();
    assert_eq!(s.range_value, 50);
    assert_eq!(s.statement, "I score it 50 to 50 because...");
    assert_eq!(s.statement_len, 30);
    assert_eq!(s.statement.len(), 30);
}

#[test]
fn slider_clamps_and_rewrites() {
    let mut s = VoteSlider::new();
    s.slide(73);
    assert_eq!(s.range_value, 73);
    assert_eq!(s.statement, "I score it 27 to 73 because...");
    s.slide(-5);
    assert_eq!(s.range_value, 0);
    assert_eq!(s.statement, "I score it 100 to 0 because...");
    s.slide(250);
    assert_eq!(s.range_value, 100);
    assert_eq!(s.statement, "I score it 0 to 100 because...");
    assert_eq!(s.statement_len, 30);
}

#[test]
fn slider_arrows() {
    let mut s = VoteSlider::new();
    s.step_left();
    assert_eq!(s.range_value, 49);
    assert_eq!(s.statement, "I score it 51 to 49 because...");
    s.step_right();
    s.step_right();
    assert_eq!(s.range_value, 51);
    s.slide(0);
    s.step_left();
    assert_eq!(s.range_value, 0);
    s.slide(100);
    s.step_right();
    assert_eq!(s.range_value, 100);
    assert_eq!(s.statement, "I score it 0 to 100 because...");
}

#[test]
fn statement_limit() {
    let mut s = VoteSlider::new();
    s.edit_statement("Clean footwork".to_string());
    assert_eq!(s.statement, "Clean footwork");
    assert_eq!(s.statement_len, 14);
    let long = "x".repeat(201);
    s.edit_statement(long);
    assert_eq!(s.statement, "Clean footwork");
    assert_eq!(s.statement_len, 200);
    let exact = "y".repeat(200);
    s.edit_statement(exact.clone());
    assert_eq!(s.statement, exact);
    assert_eq!(s.statement_len, 200);
    // Bytes are counted: 101 two-byte characters are refused.
    s.edit_statement("é".repeat(101));
    assert_eq!(s.statement, exact);
}

#[test]
fn ballots() {
    let mut s = VoteSlider::new();
    s.slide(30);
    assert_eq!(s.vote_counts(), (70, 30));
    let b = unofficial_ballot("m1", &s);
    assert_eq!(b.match_id, "m1");
    assert_eq!(b.img_id, "");
    assert_eq!(b.vote_type, 0);
    assert_eq!((b.a_camp_votes, b.b_camp_votes), (70, 30));
    assert_eq!(b.statement, "I score it 70 to 30 because...");
    let b = signed_ballot("m2", "img9", VotingType::Judge, &s);
    assert_eq!(b.img_id, "img9");
    assert_eq!(b.vote_type, 2);
    assert_eq!(b.a_camp_votes + b.b_camp_votes, 100);
}

#[test]
fn signed_vote_checks() {
    assert_eq!(check_signed_vote("", "x").unwrap().content, "Can't capture sign image");
    assert_eq!(check_signed_vote("blob:1", "").unwrap().content, "Please input statement");
    assert!(check_signed_vote("blob:1", "ok").is_none());
    assert_eq!(check_signature_upload(false).unwrap().content, "Please upload correct image");
    assert!(check_signature_upload(true).is_none());
    let (n, t) = vote_stored();
    assert_eq!(n.content, "Voting Success");
    assert_eq!(n.notification_type, NotificationType::Success);
    assert_eq!(t, VotingType::Not);
    assert_eq!(score_statement(-3, 103), "I score it -3 to 103 because...");
}

#[test]
fn vote_cards() {
    let c = vote_card(0);
    assert_eq!(c.badge, VoteBadge::Plain);
    assert!(!c.shows_signature);
    assert!(c.full_width);
    let c = vote_card(1);
    assert_eq!(c.badge, VoteBadge::Certificate);
    assert!(c.shows_signature);
    assert!(!c.full_width);
    assert_eq!(vote_card(2).badge, VoteBadge::Gavel);
    assert_eq!(vote_card(7).badge, VoteBadge::Plain);
    assert!(vote_card(7).shows_signature);
    assert_eq!(score_line(61, 39), "61 | 39");
    assert_eq!(score_line(0, -1), "0 | -1");
    assert!(shows_votes(BattleStatus::BattleClosed));
    assert!(!shows_votes(BattleStatus::Voting));
}

#[test]
fn slider_text_input() {
    let mut s = VoteSlider::new();
    s.slide_text("70");
    assert_eq!(s.range_value, 70);
    assert_eq!(s.statement, "I score it 30 to 70 because...");
    s.slide_text("+250");
    assert_eq!(s.range_value, 100);
    assert_eq!(s.statement, "I score it 0 to 100 because...");
    s.slide_text("-3");
    assert_eq!(s.range_value, 0);
    assert_eq!(s.statement, "I score it 100 to 0 because...");
    s.slide_text("042");
    assert_eq!(s.range_value, 42);
    for bad in ["", "-", "+", "4.5", " 7", "7 ", "abc", "2147483648", "-2147483649", "99999999999999999999"] {
        let before = (s.range_value, s.statement.clone(), s.statement_len);
        s.slide_text(bad);
        assert_eq!((s.range_value, s.statement.clone(), s.statement_len), before);
    }
    s.slide_text("2147483647");
    assert_eq!(s.range_value, 100);
    s.slide_text("-2147483648");
    assert_eq!(s.range_value, 0);
}

#[test]
fn decimal_parsing() {
    for text in ["0", "7", "-7", "+7", "007", "2147483647", "-2147483648", "", "-", "+", "+-1", "1e3", "٣", "2147483648", "-2147483649"] {
        assert_eq!(parse_i32(text), text.parse::<i32>().ok(), "{}", text);
    }
}
