//! The voting form of a battle: the score slider, the statement, and the
//! ballot that is sent.

use vstd::prelude::*;
use crate::notification::{self, NotificationData};
use crate::text::{self, push_i64_decimal};

verus! {

/// Which vote the signed-in user may cast on a battle.
#[derive(Clone, Copy, Debug, PartialEq, Eq, Structural)]
pub enum VotingType {
    Not,
    Official,
    Unofficial,
    Judge,
}

/// The number the server knows a voting type by.
pub open spec fn spec_voting_type_code(t: VotingType) -> i32 {
    match t {
        VotingType::Not => 3,
        VotingType::Judge => 2,
        VotingType::Official => 1,
        VotingType::Unofficial => 0,
    }
}

/// The number the server knows a voting type by.
pub fn voting_type_code(t: VotingType) -> (res: i32)
    ensures
        res == spec_voting_type_code(t),
{
    match t {
        VotingType::Not => 3,
        VotingType::Judge => 2,
        VotingType::Official => 1,
        VotingType::Unofficial => 0,
    }
}

/// The heading of the voting form.
#[derive(Clone, Copy, Debug, PartialEq, Eq, Structural)]
pub enum VoteTitle {
    Official,
    Judge,
    Unofficial,
    /// No vote is allowed: the form sends the user to the login page.
    ToLogin,
}

/// The heading of the voting form for a voting type code.
pub fn vote_title(code: i32) -> (res: VoteTitle)
    ensures
        code == 1 ==> res == VoteTitle::Official,
        code == 2 ==> res == VoteTitle::Judge,
        code == 0 ==> res == VoteTitle::Unofficial,
        code != 0 && code != 1 && code != 2 ==> res == VoteTitle::ToLogin,
{
    if code == 1 {
        VoteTitle::Official
    } else if code == 2 {
        VoteTitle::Judge
    } else if code == 0 {
        VoteTitle::Unofficial
    } else {
        VoteTitle::ToLogin
    }
}

/// A signed vote (official or judge) needs a signature drawing; an unofficial one does not.
pub fn needs_signature(code: i32) -> (res: bool)
    ensures
        res == (code != 0),
{
    code != 0
}

/// The prefilled statement for a score of `a` to `b`.
pub open spec fn score_text(a: int, b: int) -> Seq<char> {
    "I score it "@ + text::int_decimal(a) + " to "@ + text::int_decimal(b) + " because..."@
}

/// The slider value kept between 0 and 100.
pub open spec fn clamp_score(val: int) -> int {
    if val <= 0 {
        0
    } else if val >= 100 {
        100
    } else {
        val
    }
}

/// The number of UTF-8 bytes of a text, as `String::len` counts them.
pub open spec fn byte_len(s: Seq<char>) -> usize {
    vstd::utf8::encode_utf8(s).len() as usize
}

/// The longest statement, in bytes.
pub const STATEMENT_MAX: usize = 200;

/// A UTF-8 encoding takes at most four bytes for each character.
pub proof fn lemma_encode_utf8_len(s: Seq<char>)
    ensures
        vstd::utf8::encode_utf8(s).len() <= 4 * s.len(),
    decreases s.len(),
{
    if s.len() > 0 {
        lemma_encode_utf8_len(s.drop_first());
        assert(vstd::utf8::encode_scalar(s[0] as u32).len() <= 4);
    }
}

/// A score between 0 and 100 takes at most three digits.
pub proof fn lemma_score_digits(n: int)
    requires
        0 <= n <= 100,
    ensures
        text::int_decimal(n).len() <= 3,
{
    reveal_with_fuel(text::nat_decimal, 3);
}

/// The prefilled statement of any score fits the statement box (200 bytes).
pub proof fn lemma_score_text_fits(a: int, b: int)
    requires
        0 <= a <= 100,
        0 <= b <= 100,
    ensures
        byte_len(score_text(a, b)) <= 200,
{
    reveal_strlit("I score it ");
    reveal_strlit(" to ");
    reveal_strlit(" because...");
    lemma_score_digits(a);
    lemma_score_digits(b);
    lemma_encode_utf8_len(score_text(a, b));
}

/// The statement and the length shown under it stay within the box's 200 bytes.
pub open spec fn statement_fits(s: VoteSlider) -> bool {
    byte_len(s.statement@) <= 200 && s.statement_len <= 200
}

/// The statement "I score it {a} to {b} because...".
pub fn score_statement(a: i32, b: i32) -> (res: String)
    ensures
        res@ == score_text(a as int, b as int),
{
    let mut s = "I score it ".to_owned();
    push_i64_decimal(&mut s, a as i64);
    s.append(" to ");
    push_i64_decimal(&mut s, b as i64);
    s.append(" because...");
    s
}

/// The state of the voting form: the slider (the score of camp B out of 100),
/// the statement, and the length shown under the statement box.
#[derive(Clone, Debug)]
pub struct VoteSlider {
    pub range_value: i32,
    pub statement: String,
    pub statement_len: usize,
}

/// The slider and the statement agree: the slider is between 0 and 100 and the
/// statement is the prefilled one for its score.
pub open spec fn slider_agrees(s: VoteSlider) -> bool {
    &&& 0 <= s.range_value <= 100
    &&& s.statement@ == score_text(100 - s.range_value, s.range_value as int)
}

impl VoteSlider {
    /// The form as it opens: 50 to 50.
    pub fn new() -> (res: Self)
        ensures
            res.range_value == 50,
            res.statement@ == score_text(50, 50),
            res.statement_len == 30,
            slider_agrees(res),
            statement_fits(res),
    {
        proof {
            lemma_score_text_fits(50, 50);
        }
        VoteSlider { range_value: 50, statement: score_statement(50, 50), statement_len: 30 }
    }

    /// Moves the slider to `val`, kept between 0 and 100, and rewrites the
    /// statement for the new score. The length shown is left as it was.
    pub fn slide(&mut self, val: i32)
        ensures
            final(self).range_value == clamp_score(val as int),
            final(self).statement@ == score_text(
                100 - clamp_score(val as int),
                clamp_score(val as int),
            ),
            final(self).statement_len == old(self).statement_len,
            slider_agrees(*final(self)),
            byte_len(final(self).statement@) <= 200,
            statement_fits(*old(self)) ==> statement_fits(*final(self)),
    {
        proof {
            lemma_score_text_fits(100 - clamp_score(val as int), clamp_score(val as int));
        }
        if val <= 0 {
            self.range_value = 0;
            self.statement = score_statement(100, 0);
        } else if val >= 100 {
            self.range_value = 100;
            self.statement = score_statement(0, 100);
        } else {
            self.range_value = val;
            self.statement = score_statement(100 - val, val);
        }
    }

    /// The slider's input reported the text `value`: a decimal `i32` moves the
    /// slider there (kept between 0 and 100); any other text changes nothing.
    pub fn slide_text(&mut self, value: &str)
        ensures
            match text::spec_parse_i32(value@) {
                Some(v) => final(self).range_value == clamp_score(v) && final(self).statement@ == score_text(
                    100 - clamp_score(v),
                    clamp_score(v),
                ) && final(self).statement_len == old(self).statement_len,
                None => *final(self) == *old(self),
            },
            0 <= old(self).range_value <= 100 ==> 0 <= final(self).range_value <= 100,
            statement_fits(*old(self)) ==> statement_fits(*final(self)),
    {
        match text::parse_i32(value) {
            Some(v) => self.slide(v),
            None => {},
        }
    }

    /// The left arrow: one point more for camp A.
    pub fn step_left(&mut self)
        requires
            old(self).range_value > i32::MIN,
        ensures
            final(self).range_value == clamp_score(old(self).range_value - 1),
            final(self).statement@ == score_text(
                100 - clamp_score(old(self).range_value - 1),
                clamp_score(old(self).range_value - 1),
            ),
            final(self).statement_len == old(self).statement_len,
            slider_agrees(*final(self)),
            byte_len(final(self).statement@) <= 200,
            statement_fits(*old(self)) ==> statement_fits(*final(self)),
    {
        let v = self.range_value - 1;
        self.slide(v);
    }

    /// The right arrow: one point more for camp B.
    pub fn step_right(&mut self)
        requires
            old(self).range_value < i32::MAX,
        ensures
            final(self).range_value == clamp_score(old(self).range_value + 1),
            final(self).statement@ == score_text(
                100 - clamp_score(old(self).range_value + 1),
                clamp_score(old(self).range_value + 1),
            ),
            final(self).statement_len == old(self).statement_len,
            slider_agrees(*final(self)),
            byte_len(final(self).statement@) <= 200,
            statement_fits(*old(self)) ==> statement_fits(*final(self)),
    {
        let v = self.range_value + 1;
        self.slide(v);
    }

    /// The statement box was edited to `text`. A text longer than 200 bytes is
    /// refused: the statement stays and the length shown becomes 200.
    pub fn edit_statement(&mut self, text: String)
        ensures
            final(self).range_value == old(self).range_value,
            byte_len(text@) > 200 ==> final(self).statement == old(self).statement
                && final(self).statement_len == 200,
            byte_len(text@) <= 200 ==> final(self).statement@ == text@
                && final(self).statement_len == byte_len(text@),
            statement_fits(*old(self)) ==> statement_fits(*final(self)),
    {
        let n = text.as_str().len();
        if n > STATEMENT_MAX {
            self.statement_len = STATEMENT_MAX;
        } else {
            self.statement_len = n;
            self.statement = text;
        }
    }

    /// The votes of camp A and camp B for the slider: A gets what B does not.
    pub fn vote_counts(&self) -> (res: (i32, i32))
        requires
            100 - self.range_value <= i32::MAX,
        ensures
            res.0 == 100 - self.range_value,
            res.1 == self.range_value,
    {
        (100 - self.range_value, self.range_value)
    }
}

/// Wherever the slider is moved, it ends between 0 and 100, the two vote counts
/// add up to 100, and moving it to where it already is changes nothing.
pub proof fn lemma_slide_keeps_agreement(val: int)
    ensures
        0 <= clamp_score(val) <= 100,
        (100 - clamp_score(val)) + clamp_score(val) == 100,
        clamp_score(clamp_score(val)) == clamp_score(val),
{
}

/// The upload address for a vote's signature image, as the server sends it.
#[derive(Clone, Debug)]
pub struct GetSignURLResModel {
    pub img_id: String,
    pub img_sign_url: String,
}

/// A ballot sent to the server.
#[derive(Clone, Debug)]
pub struct VoteBallot {
    pub match_id: String,
    pub img_id: String,
    pub vote_type: i32,
    pub a_camp_votes: i32,
    pub b_camp_votes: i32,
    pub statement: String,
}

/// The ballot of an unofficial vote: no signature image, type 0, and the
/// slider's score and statement.
pub fn unofficial_ballot(match_id: &str, slider: &VoteSlider) -> (res: VoteBallot)
    requires
        0 <= slider.range_value <= 100,
    ensures
        res.match_id@ == match_id@,
        res.img_id@ == Seq::<char>::empty(),
        res.vote_type == 0,
        res.a_camp_votes == 100 - slider.range_value,
        res.b_camp_votes == slider.range_value,
        res.statement == slider.statement,
{
    let (a, b) = slider.vote_counts();
    VoteBallot {
        match_id: match_id.to_owned(),
        img_id: String::new(),
        vote_type: 0,
        a_camp_votes: a,
        b_camp_votes: b,
        statement: slider.statement.clone(),
    }
}

/// The ballot of a signed vote once its signature image is stored as `img_id`.
pub fn signed_ballot(match_id: &str, img_id: &str, voting_type: VotingType, slider: &VoteSlider) -> (res: VoteBallot)
    requires
        0 <= slider.range_value <= 100,
    ensures
        res.match_id@ == match_id@,
        res.img_id@ == img_id@,
        res.vote_type == spec_voting_type_code(voting_type),
        res.a_camp_votes == 100 - slider.range_value,
        res.b_camp_votes == slider.range_value,
        res.statement == slider.statement,
{
    let (a, b) = slider.vote_counts();
    VoteBallot {
        match_id: match_id.to_owned(),
        img_id: img_id.to_owned(),
        vote_type: voting_type_code(voting_type),
        a_camp_votes: a,
        b_camp_votes: b,
        statement: slider.statement.clone(),
    }
}

/// Before a signed vote is sent: the signature must have been captured, and the
/// statement must not be empty.
pub fn check_signed_vote(capture_url: &str, statement: &str) -> (res: Option<NotificationData>)
    ensures
        capture_url@.len() == 0 ==> (res matches Some(n) && notification::is_error(
            n,
            "Can't capture sign image"@,
        )),
        capture_url@.len() != 0 && statement@.len() == 0 ==> (res matches Some(n)
            && notification::is_error(n, "Please input statement"@)),
        capture_url@.len() != 0 && statement@.len() != 0 ==> res is None,
{
    if capture_url.is_empty() {
        Some(NotificationData::error("Can't capture sign image"))
    } else if statement.is_empty() {
        Some(NotificationData::error("Please input statement"))
    } else {
        None
    }
}

/// After the signature image upload: a failed upload stops the vote.
pub fn check_signature_upload(uploaded: bool) -> (res: Option<NotificationData>)
    ensures
        !uploaded ==> (res matches Some(n) && notification::is_error(n, "Please upload correct image"@)),
        uploaded ==> res is None,
{
    if uploaded {
        None
    } else {
        Some(NotificationData::error("Please upload correct image"))
    }
}

/// What the server answers to a 403 on a vote request.
pub fn robot_notice() -> (res: &'static str)
    ensures
        res@ == "Please try once more if you are not robot"@,
{
    "Please try once more if you are not robot"
}

/// Once the vote is stored: the success notice, and the form closes (no vote left).
pub fn vote_stored() -> (res: (NotificationData, VotingType))
    ensures
        notification::is_success_notice(res.0, "Voting Success"@),
        res.1 == VotingType::Not,
{
    (NotificationData::success("Voting Success"), VotingType::Not)
}

} // verus!
