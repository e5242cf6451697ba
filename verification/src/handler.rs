//! What each endpoint of the relay decides, given the state and the request.
use vstd::prelude::*;
use crate::dto::{RegisterDto, RegisterResponse, RoomResponse};
use crate::libs::cache::{is_live, Entry};
use crate::libs::token::is_token;
use crate::service::{
    create_room, handle_register, registered, room_exists, room_opened, username_taken, CONFLICT,
    CREATED, SESSION_TTL_SECS, TOKEN_LEN,
};
use crate::text::{decimal, push_decimal, same_text, split, split_text};
use crate::{AppState, User};

verus! {

/// The parameters of a request that names a room.
#[derive(Debug)]
pub struct WsParams {
    pub room: String,
}

/// What a visitor is shown.
#[derive(Debug, Clone, Copy, PartialEq, Eq, Structural)]
pub enum Page {
    /// The page on which to register.
    Index,
    /// The page on which to pick a room.
    Room,
    /// The page of a room.
    Chat,
    /// No page: the visitor is sent to the index.
    RedirectToIndex,
}

/// The session token that one cookie of a header carries: of the parts that
/// `=` separates, the second, where the first is `token`.
pub open spec fn cookie_token(cookie: Seq<char>) -> Option<Seq<char>> {
    let parts = split(cookie, "="@);
    if parts.len() >= 2 && parts[0] == "token"@ {
        Some(parts[1])
    } else {
        None
    }
}

/// Whether one of the cookies of `header`, which `; ` separates, carries the
/// token of a session that is live at `now`.
pub open spec fn has_session(sessions: Map<Seq<char>, Entry<User>>, header: Seq<char>, now: u64) -> bool {
    exists|i: int|
        0 <= i < split(header, "; "@).len() && {
            let token = cookie_token(#[trigger] split(header, "; "@)[i]);
            token is Some && is_live(sessions, token->0, now)
        }
}

/// The cookies of `header`: its parts between `; `.
pub fn cookies_of(header: &str) -> (cookies: Vec<String>)
    ensures
        cookies@.len() == split(header@, "; "@).len(),
        forall|i: int| 0 <= i < cookies@.len() ==> (#[trigger] cookies@[i])@ == split(header@, "; "@)[i],
{
    proof {
        reveal_strlit("; ");
    }
    split_text(header, "; ")
}

/// The session token that `cookie` carries, if it carries one.
pub fn token_of(cookie: &str) -> (token: Option<String>)
    ensures
        token is Some <==> cookie_token(cookie@) is Some,
        token is Some ==> token->0@ == cookie_token(cookie@)->0,
{
    proof {
        reveal_strlit("=");
    }
    let mut parts = split_text(cookie, "=");
    if parts.len() >= 2 && same_text(parts[0].as_str(), "token") {
        Some(parts.swap_remove(1))
    } else {
        None
    }
}

/// The page for a visitor who sent the cookie header `cookie`, if any: the
/// room page for one whose cookies carry a live session, else the index.
pub fn index_handler(state: &AppState, cookie: Option<&str>, now: u64) -> (page: Page)
    ensures
        page == if cookie is Some && has_session(state.users@, cookie->0@, now) {
            Page::Room
        } else {
            Page::Index
        },
{
    if cookie.is_none() {
        return Page::Index;
    }
    let header = cookie.unwrap();
    let cookies = cookies_of(header);
    let mut i: usize = 0;
    while i < cookies.len()
        invariant
            cookie == Some(header),
            i <= cookies@.len(),
            cookies@.len() == split(header@, "; "@).len(),
            forall|j: int| 0 <= j < cookies@.len() ==> (#[trigger] cookies@[j])@ == split(header@, "; "@)[j],
            forall|j: int|
                0 <= j < i ==> {
                    let token = cookie_token(#[trigger] split(header@, "; "@)[j]);
                    !(token is Some && is_live(state.users@, token->0, now))
                },
        decreases cookies@.len() - i,
    {
        match token_of(cookies[i].as_str()) {
            Some(token) => {
                if state.users.peek(token.as_str(), now).is_some() {
                    assert(cookie_token(split(header@, "; "@)[i as int]) == Some(token@));
                    assert(has_session(state.users@, header@, now));
                    return Page::Room;
                }
            },
            None => {},
        }
        i += 1;
    }
    Page::Index
}

/// The page for a visitor who asks for the room that `params` names: the
/// room's page if the room is live, else none.
pub fn chat_handler(state: &AppState, params: &WsParams, now: u64) -> (page: Page)
    ensures
        page == if is_live(state.rooms@, params.room@, now) {
            Page::Chat
        } else {
            Page::RedirectToIndex
        },
{
    if room_exists(&state.rooms, params.room.as_str(), now) {
        Page::Chat
    } else {
        Page::RedirectToIndex
    }
}

/// Answers a request to open the room that `data` names.
pub fn room_handler(state: &mut AppState, data: &WsParams, now: u64) -> (res: (u16, RoomResponse))
    ensures
        res.0 == CREATED,
        res.1.room@ == data.room@,
        room_opened(old(state).rooms@, data.room@, now, final(state).rooms@),
        final(state).users == old(state).users,
        final(state).rooms.spec_cleanup_interval_secs() == old(state).rooms.spec_cleanup_interval_secs(),
{
    create_room(state, data, now)
}

/// The cookie that hands `token` to a visitor: kept from scripts, sent over
/// secure connections and to this site only, for as long as a session lives.
pub open spec fn session_cookie(token: Seq<char>) -> Seq<char> {
    "token="@ + token + "; HttpOnly; Path=/; Secure; SameSite=Strict; Max-Age="@ + decimal(
        SESSION_TTL_SECS as nat,
    )
}

/// The cookie that hands `token` to a visitor, as the value of a header.
pub fn make_session_cookie(token: &str) -> (cookie: String)
    ensures
        cookie@ == session_cookie(token@),
{
    let mut cookie = String::from_str("token=");
    cookie.append(token);
    cookie.append("; HttpOnly; Path=/; Secure; SameSite=Strict; Max-Age=");
    push_decimal(&mut cookie, SESSION_TTL_SECS);
    cookie
}

/// The answer to a registration.
pub struct RegisterReply {
    /// The status: `CREATED` or `CONFLICT`.
    pub status: u16,
    /// The cookie to set, where a session was created.
    pub set_cookie: Option<String>,
    /// The body, where a session was created.
    pub body: Option<RegisterResponse>,
}

/// Answers a request to register: a new session comes with its token, in the
/// body and as a cookie; a name that is taken comes with neither.
pub fn register_handler(state: &mut AppState, payload: &RegisterDto, now: u64) -> (reply: RegisterReply)
    ensures
        final(state).rooms == old(state).rooms,
        final(state).users.spec_cleanup_interval_secs() == old(state).users.spec_cleanup_interval_secs(),
        username_taken(old(state).users@, payload.username@, now) ==> {
            &&& reply.status == CONFLICT
            &&& reply.set_cookie is None
            &&& reply.body is None
            &&& final(state).users@ == old(state).users@
        },
        !username_taken(old(state).users@, payload.username@, now) ==> {
            &&& reply.status == CREATED
            &&& reply.body is Some
            &&& reply.body->0.token@.len() == TOKEN_LEN
            &&& is_token(reply.body->0.token@)
            &&& reply.body->0.redirect_url@ == Seq::<char>::empty()
            &&& reply.set_cookie is Some
            &&& reply.set_cookie->0@ == session_cookie(reply.body->0.token@)
            &&& registered(
                old(state).users@,
                payload.username@,
                payload.password@,
                reply.body->0.token@,
                now,
                final(state).users@,
            )
        },
{
    let (status, result) = handle_register(state, payload, now);
    match result {
        Ok(body) => {
            let cookie = make_session_cookie(body.token.as_str());
            RegisterReply { status, set_cookie: Some(cookie), body: Some(body) }
        },
        Err(_) => RegisterReply { status, set_cookie: None, body: None },
    }
}

} // verus!
