//! What the service says to its callers: the requests it takes, the
//! responses it gives, and how a user is shown in them.

use vstd::prelude::*;
use vstd::string::{StrSliceExecFns, StringExecFns};

use crate::error::DomainError;
use crate::login::{LoginResult, LoginResultView};
use crate::text::{begins_with, chars_of, find_after_last_sep, find_next_sep, last_segment,
    lemma_after_last_sep, lemma_next_sep, segment_from, starts_with};
use crate::user::{uuid_text, User, UserView};

verus! {

/// The status of a login that succeeded.
pub const STATUS_OK: u16 = 200;

/// The status of a registration that succeeded.
pub const STATUS_CREATED: u16 = 201;

/// The status of a registration that failed.
pub const STATUS_BAD_REQUEST: u16 = 400;

/// The status of a login that failed.
pub const STATUS_UNAUTHORIZED: u16 = 401;

/// A request to log in.
#[derive(Debug)]
pub struct LoginRequest {
    pub user_id: String,
    pub password: String,
}

/// A request to register.
#[derive(Debug)]
pub struct RegisterRequest {
    pub user_id: String,
    pub password: String,
    pub mail_address: String,
    pub display_name: String,
}

/// The response to a login or a registration that succeeded.
#[derive(Debug)]
pub struct LoginResponse {
    pub token: String,
    pub user: UserInfo,
}

/// How a user is shown to a caller.
#[derive(Debug)]
pub struct UserInfo {
    pub id: String,
    pub acct: String,
    pub display_name: String,
}

/// Mathematical value of a [`UserInfo`].
pub struct UserInfoView {
    pub id: Seq<char>,
    pub acct: Seq<char>,
    pub display_name: Seq<char>,
}

/// Mathematical value of a [`LoginResponse`].
pub struct LoginResponseView {
    pub token: Seq<char>,
    pub user: UserInfoView,
}

impl View for UserInfo {
    type V = UserInfoView;

    open spec fn view(&self) -> UserInfoView {
        UserInfoView { id: self.id@, acct: self.acct@, display_name: self.display_name@ }
    }
}

impl View for LoginResponse {
    type V = LoginResponseView;

    open spec fn view(&self) -> LoginResponseView {
        LoginResponseView { token: self.token@, user: self.user@ }
    }
}

/// The host of a URL: what stands between the scheme `https://` or
/// `http://` and the next `/`, or the end. A text without such a scheme has
/// none.
pub open spec fn host_of(url: Seq<char>) -> Option<Seq<char>> {
    if starts_with(url, "https://"@) {
        Some(segment_from(url, '/', "https://"@.len() as int))
    } else if starts_with(url, "http://"@) {
        Some(segment_from(url, '/', "http://"@.len() as int))
    } else {
        None
    }
}

/// The account name of the user with this activity identifier, as the
/// service at `instance_host` writes it: the last segment of the
/// identifier, followed by `@` and the host where the user is of another
/// host.
pub open spec fn acct_of(activity_id: Seq<char>, instance_host: Seq<char>) -> Seq<char> {
    let username = last_segment(activity_id, '/');
    match host_of(activity_id) {
        Some(host) => if host == instance_host {
            username
        } else {
            username + "@"@ + host
        },
        None => username,
    }
}

/// How the service at `instance_host` shows `user`.
pub open spec fn user_info_of(user: UserView, instance_host: Seq<char>) -> UserInfoView {
    UserInfoView {
        id: uuid_text(user.id),
        acct: acct_of(user.activity_id, instance_host),
        display_name: user.display_name,
    }
}

/// The host of `url`, if it begins with `https://` or `http://`.
pub fn extract_host(url: &str) -> (host: Option<String>)
    ensures
        host is Some <==> host_of(url@) is Some,
        host is Some ==> Some(host->Some_0@) == host_of(url@),
        host is Some ==> !host->Some_0@.contains('/'),
{
    let chars = chars_of(url);
    let secure = chars_of("https://");
    let plain = chars_of("http://");
    let start = if begins_with(&chars, &secure) {
        secure.len()
    } else if begins_with(&chars, &plain) {
        plain.len()
    } else {
        return None;
    };
    let end = find_next_sep(&chars, '/', start);
    proof {
        lemma_next_sep(chars@, '/', start as int);
    }
    Some(url.substring_char(start, end).to_string())
}

/// The part of `text` behind its last `/`.
pub fn last_path_segment(text: &str) -> (segment: String)
    ensures
        segment@ == last_segment(text@, '/'),
        !segment@.contains('/'),
{
    let chars = chars_of(text);
    let start = find_after_last_sep(&chars, '/');
    proof {
        lemma_after_last_sep(chars@, '/', chars.len() as int);
    }
    text.substring_char(start, chars.len()).to_string()
}

impl UserInfo {
    /// Shows `user` as the service at `instance_host` does.
    pub fn from_user(user: &User, instance_host: &str) -> (info: UserInfo)
        ensures
            info@ == user_info_of(user@, instance_host@),
    {
        let username = last_path_segment(user.activity_id().as_str());
        let acct = match extract_host(user.activity_id().as_str()) {
            Some(host) => {
                let self_host = instance_host.to_string();
                if host == self_host {
                    username
                } else {
                    let mut acct = username;
                    acct.append("@");
                    acct.append(host.as_str());
                    acct
                }
            },
            None => username,
        };
        UserInfo { id: user.id().to_text(), acct, display_name: user.display_name().to_string() }
    }
}

/// What a caller is told: a session, or a refusal in words.
#[derive(Debug)]
pub enum ReplyBody {
    Session(LoginResponse),
    Message(String),
}

/// A reply to a caller: a status and a body.
#[derive(Debug)]
pub struct Reply {
    pub status: u16,
    pub body: ReplyBody,
}

/// Mathematical value of a [`ReplyBody`].
pub enum ReplyBodyView {
    Session(LoginResponseView),
    Message(Seq<char>),
}

/// Mathematical value of a [`Reply`].
pub struct ReplyView {
    pub status: u16,
    pub body: ReplyBodyView,
}

impl View for Reply {
    type V = ReplyView;

    open spec fn view(&self) -> ReplyView {
        ReplyView {
            status: self.status,
            body: match self.body {
                ReplyBody::Session(response) => ReplyBodyView::Session(response@),
                ReplyBody::Message(text) => ReplyBodyView::Message(text@),
            },
        }
    }
}

/// The reply to a request that came to `outcome`: on success the status
/// `granted` with the token and the user as the service at `instance_host`
/// shows it, on any failure the status `refused` with the text `refusal`.
pub open spec fn reply_of(
    outcome: Result<LoginResultView, crate::error::DomainFault>,
    instance_host: Seq<char>,
    granted: u16,
    refused: u16,
    refusal: Seq<char>,
) -> ReplyView {
    match outcome {
        Ok(result) => ReplyView {
            status: granted,
            body: ReplyBodyView::Session(
                LoginResponseView {
                    token: result.token,
                    user: user_info_of(result.user, instance_host),
                },
            ),
        },
        Err(_) => ReplyView { status: refused, body: ReplyBodyView::Message(refusal) },
    }
}

fn reply(
    result: Result<LoginResult, DomainError>,
    instance_host: &str,
    granted: u16,
    refused: u16,
    refusal: &str,
) -> (reply: Reply)
    ensures
        reply@ == reply_of(crate::error::outcome(result), instance_host@, granted, refused, refusal@),
{
    match result {
        Ok(result) => {
            let user = UserInfo::from_user(&result.user, instance_host);
            Reply {
                status: granted,
                body: ReplyBody::Session(LoginResponse { token: result.token, user }),
            }
        },
        Err(_) => Reply { status: refused, body: ReplyBody::Message(refusal.to_string()) },
    }
}

/// The reply to a login. Every failure is answered alike.
pub fn login_reply(result: Result<LoginResult, DomainError>, instance_host: &str) -> (reply: Reply)
    ensures
        reply@ == reply_of(
            crate::error::outcome(result),
            instance_host@,
            STATUS_OK,
            STATUS_UNAUTHORIZED,
            "Authentication failed"@,
        ),
{
    reply(result, instance_host, STATUS_OK, STATUS_UNAUTHORIZED, "Authentication failed")
}

/// The reply to a registration. Every failure is answered alike.
pub fn register_reply(result: Result<LoginResult, DomainError>, instance_host: &str) -> (reply:
    Reply)
    ensures
        reply@ == reply_of(
            crate::error::outcome(result),
            instance_host@,
            STATUS_CREATED,
            STATUS_BAD_REQUEST,
            "Registration failed"@,
        ),
{
    reply(result, instance_host, STATUS_CREATED, STATUS_BAD_REQUEST, "Registration failed")
}

} // verus!
