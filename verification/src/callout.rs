//! Calling a battler out: the user list, the aim step, and the flow between them.

use vstd::prelude::*;
use crate::notification::{self, NotificationData};

verus! {

/// A battler as the user list and the battle pages show it.
/// `battler_score_bits` holds the bits of the battler's score (an `f64`).
#[derive(Clone, Debug)]
pub struct UserSelect {
    pub _id: String,
    pub username: String,
    pub battler_score_bits: u64,
    pub instagram_name: String,
    pub instagram_id: String,
    pub matches_won: i32,
    pub matches_lost: i32,
    pub matches_withdrawn: i32,
    pub callout: i32,
    pub response: i32,
    pub one_hundred_badge: i32,
    pub first_tourney_badge: String,
}

/// One page of the user list, as the server sends it.
#[derive(Clone, Debug)]
pub struct GetUserListResModel {
    pub data: Vec<UserSelect>,
    pub max_pages: i32,
    pub battler_check: bool,
}

/// The call-outs waiting for the signed-in user's response.
#[derive(Clone, Debug)]
pub struct GetResponseResModel {
    pub data: Vec<UserSelect>,
}

/// What the response page does with the reply that lists the call-outs
/// waiting for the user's response.
#[derive(Clone, Debug)]
pub struct ResponseLoad {
    /// The session is gone: logged out (the warning is still set).
    pub unauthorized: bool,
    /// The list to show, when it loaded.
    pub users: Option<Vec<UserSelect>>,
    /// The warning to show, when it did not.
    pub warning: Option<String>,
}

/// The outcome of loading the response page's list. `reason` is the text of
/// the failure to parse a success body, when it did not parse.
pub fn response_list_load(
    network_ok: bool,
    status: u16,
    cause: Option<String>,
    body: Option<GetResponseResModel>,
    reason: &str,
) -> (res: ResponseLoad)
    ensures
        !network_ok ==> !res.unauthorized && res.users is None && (res.warning matches Some(w) && w@
            == "Please check your internet connection"@),
        network_ok && status != crate::status::OK ==> res.unauthorized == (status
            == crate::status::UNAUTHORIZED) && res.users is None && (res.warning matches Some(w) && w@
            == notification::cause_text(notification::opt_view(cause), "Response is not correct"@)),
        network_ok && status == crate::status::OK && body is Some ==> !res.unauthorized && res.users
            == Some(body->0.data) && res.warning is None,
        network_ok && status == crate::status::OK && body is None ==> !res.unauthorized && res.users is None
            && (res.warning matches Some(w) && w@ == "Response error : "@ + reason@),
{
    if !network_ok {
        ResponseLoad {
            unauthorized: false,
            users: None,
            warning: Some("Please check your internet connection".to_owned()),
        }
    } else if status != crate::status::OK {
        let w = match cause {
            Some(c) => c,
            None => "Response is not correct".to_owned(),
        };
        ResponseLoad { unauthorized: status == crate::status::UNAUTHORIZED, users: None, warning: Some(w) }
    } else {
        match body {
            Some(b) => ResponseLoad { unauthorized: false, users: Some(b.data), warning: None },
            None => ResponseLoad {
                unauthorized: false,
                users: None,
                warning: Some(crate::text::concat2("Response error : ", reason)),
            },
        }
    }
}

/// The user card shows the Instagram tag when both the Instagram id and name are known.
pub fn shows_instagram(user: &UserSelect) -> (res: bool)
    ensures
        res == (user.instagram_id@.len() != 0 && user.instagram_name@.len() != 0),
{
    !user.instagram_id.as_str().is_empty() && !user.instagram_name.as_str().is_empty()
}

/// The user card shows the "100" star when the battler holds that badge.
pub fn shows_hundred_badge(user: &UserSelect) -> (res: bool)
    ensures
        res == (user.one_hundred_badge == 1),
{
    user.one_hundred_badge == 1
}

/// Where the last segment of a file name starts: just after its last '.',
/// or at 0 when it has none.
pub open spec fn segment_start(s: Seq<char>) -> int
    decreases s.len(),
{
    if s.len() == 0 {
        0
    } else if s.last() == '.' {
        s.len() as int
    } else {
        segment_start(s.drop_last())
    }
}

/// The extension of a file name: what follows its last '.', or the whole name.
pub open spec fn extension(s: Seq<char>) -> Seq<char> {
    s.subrange(segment_start(s), s.len() as int)
}

/// The extension is "mp4" once lowered: three characters, 'm' or 'M', 'p' or 'P', '4'.
/// (No other character lowers to 'm', 'p' or '4', and none lowers to more than one
/// character among them, so this is exactly the lowered comparison.)
pub open spec fn is_mp4_extension(e: Seq<char>) -> bool {
    &&& e.len() == 3
    &&& (e[0] == 'm' || e[0] == 'M')
    &&& (e[1] == 'p' || e[1] == 'P')
    &&& e[2] == '4'
}

proof fn lemma_segment_start_bounds(s: Seq<char>)
    ensures
        0 <= segment_start(s) <= s.len(),
    decreases s.len(),
{
    if s.len() > 0 && s.last() != '.' {
        lemma_segment_start_bounds(s.drop_last());
    }
}

/// Whether a chosen file is accepted as a battle video: its extension, lowered, is "mp4".
pub fn is_mp4_file(name: &str) -> (res: bool)
    ensures
        res == is_mp4_extension(extension(name@)),
{
    let n = name.unicode_len();
    let mut start: usize = 0;
    let mut i: usize = 0;
    while i < n
        invariant
            n == name@.len(),
            i <= n,
            start as int == segment_start(name@.take(i as int)),
        decreases n - i,
    {
        let c = name.get_char(i);
        proof {
            assert(name@.take(i + 1).drop_last() =~= name@.take(i as int));
        }
        if c == '.' {
            start = i + 1;
        }
        i = i + 1;
    }
    assert(name@.take(n as int) =~= name@);
    proof {
        lemma_segment_start_bounds(name@);
    }
    if n - start != 3 {
        return false;
    }
    let c0 = name.get_char(start);
    let c1 = name.get_char(start + 1);
    let c2 = name.get_char(start + 2);
    (c0 == 'm' || c0 == 'M') && (c1 == 'p' || c1 == 'P') && c2 == '4'
}

/// The state of the call-out flow: which step is shown (0 the user list,
/// 1 the aim step, 2 the judges step), the chosen battler, and the chosen video.
#[derive(Clone, Debug)]
pub struct CalloutFlow {
    pub page_flag: i32,
    pub selected_user: Option<UserSelect>,
    pub video_content: String,
    pub video_type: String,
}

/// The flow is consistent: a known step, a battler chosen past the user list,
/// and a video chosen at the judges step.
pub open spec fn flow_consistent(f: CalloutFlow) -> bool {
    &&& 0 <= f.page_flag <= 2
    &&& f.page_flag != 0 ==> f.selected_user is Some
    &&& f.page_flag == 2 ==> f.video_content@.len() != 0
}

impl CalloutFlow {
    /// The flow as the call-out page opens: the user list, nothing chosen.
    pub fn new() -> (res: Self)
        ensures
            res.page_flag == 0,
            res.selected_user is None,
            res.video_content@.len() == 0,
            res.video_type@.len() == 0,
    {
        CalloutFlow { page_flag: 0, selected_user: None, video_content: String::new(), video_type: String::new() }
    }

    /// A battler was clicked in the user list. Only a user allowed to battle
    /// (as the server said with the list) moves on to the aim step.
    pub fn select_user(&mut self, battler_check: bool, user: UserSelect)
        ensures
            battler_check ==> final(self).page_flag == 1 && final(self).selected_user == Some(user)
                && final(self).video_content == old(self).video_content
                && final(self).video_type == old(self).video_type,
            !battler_check ==> *final(self) == *old(self),
            flow_consistent(*old(self)) ==> flow_consistent(*final(self)),
    {
        if battler_check {
            self.selected_user = Some(user);
            self.page_flag = 1;
        }
    }

    /// The list button of the aim step: back to the user list, nothing chosen.
    pub fn back_to_list(&mut self)
        ensures
            final(self).page_flag == 0,
            final(self).selected_user is None,
            final(self).video_content@.len() == 0,
            final(self).video_type@.len() == 0,
            flow_consistent(*final(self)),
    {
        self.page_flag = 0;
        self.selected_user = None;
        self.video_content = String::new();
        self.video_type = String::new();
    }

    /// The "Ready" button of the aim step: the chosen video is dropped.
    pub fn ready(&mut self)
        ensures
            final(self).page_flag == old(self).page_flag,
            final(self).selected_user == old(self).selected_user,
            final(self).video_content@.len() == 0,
            final(self).video_type@.len() == 0,
            flow_consistent(*old(self)) && old(self).page_flag != 2 ==> flow_consistent(*final(self)),
    {
        self.video_content = String::new();
        self.video_type = String::new();
    }

    /// A file was chosen at the aim step, with `blob_url` pointing at its
    /// content. A file whose extension is not mp4 is refused with an error
    /// notification; otherwise it becomes the video.
    pub fn choose_file(&mut self, file_name: &str, blob_url: String) -> (res: Option<NotificationData>)
        ensures
            !is_mp4_extension(extension(file_name@)) ==> *final(self) == *old(self) && (res matches Some(
                n,
            ) && notification::is_error(n, "Select Correct file"@)),
            is_mp4_extension(extension(file_name@)) ==> res is None && final(self).video_content
                == blob_url && final(self).page_flag == old(self).page_flag
                && final(self).selected_user == old(self).selected_user
                && final(self).video_type == old(self).video_type,
            flow_consistent(*old(self)) && old(self).page_flag != 2 ==> flow_consistent(*final(self)),
    {
        if !is_mp4_file(file_name) {
            return Some(NotificationData::error("Select Correct file"));
        }
        self.video_content = blob_url;
        None
    }

    /// The "Aim" button: on to the judges step. It is disabled while no video is chosen.
    pub fn aim(&mut self)
        ensures
            old(self).video_content@.len() != 0 ==> final(self).page_flag == 2
                && final(self).selected_user == old(self).selected_user
                && final(self).video_content == old(self).video_content
                && final(self).video_type == old(self).video_type,
            old(self).video_content@.len() == 0 ==> *final(self) == *old(self),
            flow_consistent(*old(self)) && old(self).page_flag != 0 ==> flow_consistent(*final(self)),
    {
        if !self.video_content.as_str().is_empty() {
            self.page_flag = 2;
        }
    }
}

/// Which part the call-out page shows for a step.
#[derive(Clone, Copy, Debug, PartialEq, Eq, Structural)]
pub enum CalloutScreen {
    UserList,
    Aim,
    Judge,
}

/// Which part the call-out page shows for a step: 1 the aim step, 2 the judges, any other the user list.
pub fn callout_screen(page_flag: i32) -> (res: CalloutScreen)
    ensures
        page_flag == 1 ==> res == CalloutScreen::Aim,
        page_flag == 2 ==> res == CalloutScreen::Judge,
        page_flag != 1 && page_flag != 2 ==> res == CalloutScreen::UserList,
{
    if page_flag == 1 {
        CalloutScreen::Aim
    } else if page_flag == 2 {
        CalloutScreen::Judge
    } else {
        CalloutScreen::UserList
    }
}

/// The query of the user list: the search text, five users a page, and the page.
#[derive(Clone, Debug)]
pub struct UserListQuery {
    pub search: String,
    pub count: i32,
    pub pagination: i32,
}

impl UserListQuery {
    /// The query as the list opens: no search, first page.
    pub fn new() -> (res: Self)
        ensures
            res.search@.len() == 0,
            res.count == 5,
            res.pagination == 1,
    {
        UserListQuery { search: String::new(), count: 5, pagination: 1 }
    }

    /// The search text changed (or was cleared): the list starts again at page 1.
    pub fn set_search(&mut self, text: String)
        ensures
            final(self).search == text,
            final(self).count == old(self).count,
            final(self).pagination == 1,
    {
        self.search = text;
        self.pagination = 1;
    }
}


/// The call-out page's user list: "Check you internet" when the request fails
/// to go out, the server's cause (or "Response is not correct") on an error, and
/// "Response is not correct" for a body that does not parse.
pub fn user_list_load(network_ok: bool, status: u16, cause: Option<String>, body: Option<GetUserListResModel>) -> (res: Result<GetUserListResModel, NotificationData>)
    ensures
        crate::reply::list_loaded(
            res,
            network_ok,
            status,
            cause,
            body,
            "Check you internet"@,
            "Response is not correct"@,
            "Response is not correct"@,
        ),
{
    crate::reply::load_outcome(
        network_ok,
        status,
        cause,
        body,
        "Check you internet",
        "Response is not correct",
        "Response is not correct",
    )
}

} // verus!
