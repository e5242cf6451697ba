//! The registries of rooms and of sessions, and what becomes of a message on
//! its way through a room.
use vstd::prelude::*;
use tokio::sync::broadcast::Sender;
use crate::dto::{RegisterDto, RegisterResponse, RoomResponse};
use crate::handler::WsParams;
use crate::libs::cache::{deadline, is_live, written, AsyncCache, Entry};
use crate::libs::token::{generate_token, is_token};
use crate::text::same_text;
use crate::{AppState, User};

verus! {

/// A room keeps its entry for this many seconds from the moment it is opened.
pub const ROOM_TTL_SECS: u64 = 15 * 60;

/// The number of messages that a room is asked to hold back for a subscriber
/// that lags.
pub const ROOM_CAPACITY: usize = 10;

/// A session keeps its entry for this many seconds from registration.
pub const SESSION_TTL_SECS: u64 = 5 * 60;

/// The number of characters of a session token.
pub const TOKEN_LEN: usize = 6;

/// The status of an answer that reports something created.
pub const CREATED: u16 = 201;

/// The status of an answer that reports a conflict.
pub const CONFLICT: u16 = 409;

/// What can go wrong in the relay.
#[derive(Debug, Clone, Copy, PartialEq, Eq, Structural)]
pub enum RelayError {
    /// A registration asked for a name that a live session holds.
    Conflict,
    /// A relayed message has a blank field.
    ValidationFailed,
    /// A relayed payload is no message at all.
    MalformedMessage,
}

/// The sending half of a broadcast channel of `tokio`: the handle of a room.
#[verifier::external_type_specification]
#[verifier::external_body]
#[verifier::reject_recursive_types(T)]
pub struct ExSender<T>(Sender<T>);

/// `tokio::sync::broadcast::channel`: a new channel that holds back at least
/// `capacity` messages for each subscriber. The sending half is kept; the
/// receiving half that comes with it is dropped at once, so the channel starts
/// without a subscriber. Nothing is stated of the handle. The call panics on a
/// capacity of zero or above `usize::MAX / 2`, which is left out.
#[verifier::external_body]
fn open_channel(capacity: usize) -> Sender<String>
    requires
        0 < capacity <= usize::MAX / 2,
{
    tokio::sync::broadcast::channel(capacity).0
}

/// One more handle of the same thing.
fn share<T: Clone>(value: &T) -> (copy: T)
    ensures
        cloned(*value, copy),
{
    value.clone()
}

/// What `resolve_room` does to the registry: a room that is live stays as it
/// is; otherwise a room is written under `name`, to live for `ROOM_TTL_SECS`.
pub open spec fn room_opened(
    before: Map<Seq<char>, Entry<Sender<String>>>,
    name: Seq<char>,
    now: u64,
    after: Map<Seq<char>, Entry<Sender<String>>>,
) -> bool {
    &&& after.contains_key(name)
    &&& if is_live(before, name, now) {
        after == before
    } else {
        &&& after == before.insert(name, after[name])
        &&& after[name].expires_at == deadline(now, ROOM_TTL_SECS)
    }
}

/// The handle of the room `name`: that of the live room if there is one, else
/// that of a room opened by this call. The registry is borrowed for the whole
/// of the call, so that of any number of callers one opens the room and all
/// others find it.
pub fn resolve_room(rooms: &mut AsyncCache<Sender<String>>, name: String, now: u64) -> (room: Sender<String>)
    ensures
        room_opened(old(rooms)@, name@, now, final(rooms)@),
        cloned(final(rooms)@[name@].value, room),
        final(rooms).spec_cleanup_interval_secs() == old(rooms).spec_cleanup_interval_secs(),
{
    match rooms.get(name.as_str(), now) {
        Some(room) => room,
        None => {
            let room = open_channel(ROOM_CAPACITY);
            let handle = share(&room);
            rooms.set(name, room, ROOM_TTL_SECS, now);
            handle
        },
    }
}

/// However many callers resolve a name one after the other, while the room
/// that the first of them left is live the registry stays as the first left
/// it: the room is opened at most once, and every caller's handle is a copy of
/// the one handle that the registry holds. Here `states[k]` is the registry
/// before the call of caller `k`, at `times[k]`, and `states[k + 1]` after it.
pub proof fn law_room_is_opened_once(
    states: Seq<Map<Seq<char>, Entry<Sender<String>>>>,
    name: Seq<char>,
    times: Seq<u64>,
    caller: int,
)
    requires
        states.len() == times.len() + 1,
        forall|k: int|
            0 <= k < times.len() ==> room_opened(#[trigger] states[k], name, times[k], states[k + 1]),
        forall|k: int| 1 <= k < times.len() ==> is_live(states[1], name, #[trigger] times[k]),
        0 <= caller < times.len(),
    ensures
        states[caller + 1] == states[1],
    decreases caller,
{
    if caller > 0 {
        law_room_is_opened_once(states, name, times, caller - 1);
        assert(room_opened(states[caller], name, times[caller], states[caller + 1]));
    }
}

/// A room that had to be opened is live from that moment until its lifetime
/// is over.
pub proof fn law_opened_room_is_live(
    start: Map<Seq<char>, Entry<Sender<String>>>,
    first: Map<Seq<char>, Entry<Sender<String>>>,
    name: Seq<char>,
    opened_at: u64,
    now: u64,
)
    requires
        room_opened(start, name, opened_at, first),
        !is_live(start, name, opened_at),
    ensures
        is_live(first, name, now) <==> now < deadline(opened_at, ROOM_TTL_SECS),
{
}

/// Whether the room `name` is live.
pub fn room_exists(rooms: &AsyncCache<Sender<String>>, name: &str, now: u64) -> (exists: bool)
    ensures
        exists == is_live(rooms@, name@, now),
{
    rooms.peek(name, now).is_some()
}

/// Answers a request for the room that `data` names: the room is opened unless
/// it is live, and the answer is the same either way.
pub fn create_room(state: &mut AppState, data: &WsParams, now: u64) -> (res: (u16, RoomResponse))
    ensures
        res.0 == CREATED,
        res.1.room@ == data.room@,
        room_opened(old(state).rooms@, data.room@, now, final(state).rooms@),
        final(state).users == old(state).users,
        final(state).rooms.spec_cleanup_interval_secs() == old(state).rooms.spec_cleanup_interval_secs(),
{
    let _ = resolve_room(&mut state.rooms, data.room.clone(), now);
    (CREATED, RoomResponse { room: data.room.clone() })
}

/// Whether a session that is live at `now` belongs to `username`.
pub open spec fn username_taken(
    sessions: Map<Seq<char>, Entry<User>>,
    username: Seq<char>,
    now: u64,
) -> bool {
    exists|token: Seq<char>|
        is_live(sessions, token, now) && (#[trigger] sessions[token]).value.username@ == username
}

/// Whether a session that is live at `now` belongs to `username`. Sessions are
/// kept by token, so this looks at every one of them.
pub fn is_username_taken(users: &AsyncCache<User>, username: &str, now: u64) -> (taken: bool)
    ensures
        taken == username_taken(users@, username@, now),
{
    let list = users.entries();
    let mut i: usize = 0;
    while i < list.len()
        invariant
            i <= list@.len(),
            forall|j: int|
                0 <= j < list@.len() ==> users@.contains_key((#[trigger] list@[j]).spec_key())
                    && users@[list@[j].spec_key()] == list@[j].entry(),
            forall|j: int|
                0 <= j < i ==> !(now < (#[trigger] list@[j]).entry().expires_at
                    && list@[j].entry().value.username@ == username@),
        decreases list@.len() - i,
    {
        let item = &list[i];
        if item.is_live(now) && same_text(item.value().username.as_str(), username) {
            assert(is_live(users@, item.spec_key(), now));
            assert(users@[item.spec_key()].value.username@ == username@);
            return true;
        }
        i += 1;
    }
    assert forall|token: Seq<char>| is_live(users@, token, now) implies (#[trigger] users@[token]).value.username@
        != username@ by {
        let j = choose|j: int| 0 <= j < list@.len() && (#[trigger] list@[j]).spec_key() == token;
        assert(list@[j].entry() == users@[token]);
    }
    false
}

/// The sessions after `username` has registered with `password` under `token`
/// at `now`.
pub open spec fn registered(
    sessions: Map<Seq<char>, Entry<User>>,
    username: Seq<char>,
    password: Seq<char>,
    token: Seq<char>,
    now: u64,
    after: Map<Seq<char>, Entry<User>>,
) -> bool {
    &&& after.contains_key(token)
    &&& after[token].value.username@ == username
    &&& after[token].value.password@ == password
    &&& after == written(sessions, token, after[token].value, SESSION_TTL_SECS, now)
}

/// Registers the user of `payload` under `token`, unless a live session holds
/// the name already. The session is written under `token` whatever was held
/// there before.
pub fn register_with_token(
    users: &mut AsyncCache<User>,
    payload: &RegisterDto,
    token: String,
    now: u64,
) -> (res: (u16, Result<RegisterResponse, RelayError>))
    ensures
        final(users).spec_cleanup_interval_secs() == old(users).spec_cleanup_interval_secs(),
        username_taken(old(users)@, payload.username@, now) ==> {
            &&& res.0 == CONFLICT
            &&& res.1 == Err::<RegisterResponse, RelayError>(RelayError::Conflict)
            &&& final(users)@ == old(users)@
        },
        !username_taken(old(users)@, payload.username@, now) ==> {
            &&& res.0 == CREATED
            &&& res.1 is Ok
            &&& res.1->Ok_0.token@ == token@
            &&& res.1->Ok_0.redirect_url@ == Seq::<char>::empty()
            &&& registered(old(users)@, payload.username@, payload.password@, token@, now, final(users)@)
        },
{
    if is_username_taken(users, payload.username.as_str(), now) {
        return (CONFLICT, Err(RelayError::Conflict));
    }
    let user = User { username: payload.username.clone(), password: payload.password.clone() };
    users.set(token.clone(), user, SESSION_TTL_SECS, now);
    (CREATED, Ok(RegisterResponse { token, redirect_url: String::new() }))
}

/// Registers the user of `payload` under a fresh random token, unless a live
/// session holds the name already.
pub fn handle_register(state: &mut AppState, payload: &RegisterDto, now: u64) -> (res: (
    u16,
    Result<RegisterResponse, RelayError>,
))
    ensures
        final(state).rooms == old(state).rooms,
        final(state).users.spec_cleanup_interval_secs() == old(state).users.spec_cleanup_interval_secs(),
        username_taken(old(state).users@, payload.username@, now) ==> {
            &&& res.0 == CONFLICT
            &&& res.1 == Err::<RegisterResponse, RelayError>(RelayError::Conflict)
            &&& final(state).users@ == old(state).users@
        },
        !username_taken(old(state).users@, payload.username@, now) ==> {
            &&& res.0 == CREATED
            &&& res.1 is Ok
            &&& res.1->Ok_0.token@.len() == TOKEN_LEN
            &&& is_token(res.1->Ok_0.token@)
            &&& res.1->Ok_0.redirect_url@ == Seq::<char>::empty()
            &&& registered(
                old(state).users@,
                payload.username@,
                payload.password@,
                res.1->Ok_0.token@,
                now,
                final(state).users@,
            )
        },
{
    let token = generate_token(TOKEN_LEN);
    register_with_token(&mut state.users, payload, token, now)
}

/// Until a session's lifetime is over, its user's name is taken.
pub proof fn law_name_is_taken_while_session_lives(
    sessions: Map<Seq<char>, Entry<User>>,
    after: Map<Seq<char>, Entry<User>>,
    username: Seq<char>,
    password: Seq<char>,
    token: Seq<char>,
    registered_at: u64,
    now: u64,
)
    requires
        registered(sessions, username, password, token, registered_at, after),
        now < deadline(registered_at, SESSION_TTL_SECS),
    ensures
        username_taken(after, username, now),
{
    assert(is_live(after, token, now) && after[token].value.username@ == username);
}

/// Once a session's lifetime is over, its user's name is free again, unless
/// another live session holds it.
pub proof fn law_name_is_free_after_session_expires(
    sessions: Map<Seq<char>, Entry<User>>,
    after: Map<Seq<char>, Entry<User>>,
    username: Seq<char>,
    password: Seq<char>,
    token: Seq<char>,
    registered_at: u64,
    now: u64,
)
    requires
        registered(sessions, username, password, token, registered_at, after),
        deadline(registered_at, SESSION_TTL_SECS) <= now,
        !username_taken(sessions.remove(token), username, now),
    ensures
        !username_taken(after, username, now),
{
    assert forall|other: Seq<char>| is_live(after, other, now) implies (#[trigger] after[other]).value.username@
        != username by {
        assert(other != token);
        assert(is_live(sessions.remove(token), other, now));
        assert(sessions.remove(token)[other] == after[other]);
    }
}

/// The token of a registration leads to the user who registered until the
/// session's lifetime is over, and to nobody from then on.
pub proof fn law_token_resolves_until_expiry(
    sessions: Map<Seq<char>, Entry<User>>,
    after: Map<Seq<char>, Entry<User>>,
    username: Seq<char>,
    password: Seq<char>,
    token: Seq<char>,
    registered_at: u64,
    now: u64,
)
    requires
        registered(sessions, username, password, token, registered_at, after),
    ensures
        is_live(after, token, now) <==> now < deadline(registered_at, SESSION_TTL_SECS),
        is_live(after, token, now) ==> after[token].value.username@ == username,
{
}

/// The user of the session `token`, if that session is live.
pub fn authenticate(users: &AsyncCache<User>, token: &str, now: u64) -> (user: Option<User>)
    ensures
        user is Some <==> is_live(users@, token@, now),
        user is Some ==> user->0 == users@[token@].value,
{
    users.get(token, now)
}

} // verus!
