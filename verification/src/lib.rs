//! A multi-room message relay: a keyed store whose entries expire, the room and
//! session registries built on it, and the decisions of one relayed connection.
use vstd::prelude::*;
use tokio::sync::broadcast::Sender;
use crate::libs::cache::{AsyncCache, Entry};

pub mod connection;
pub mod dto;
pub mod handler;
pub mod libs;
pub mod service;
pub mod text;

verus! {

/// The registry of rooms asks to be purged at this interval, in seconds.
pub const ROOM_SWEEP_SECS: u64 = 60;

/// The registry of sessions asks to be purged at this interval, in seconds.
pub const SESSION_SWEEP_SECS: u64 = 15;

/// A registered user.
#[derive(Debug)]
pub struct User {
    pub username: String,
    pub password: String,
}

impl Clone for User {
    fn clone(&self) -> (copy: Self)
        ensures
            copy == *self,
    {
        User { username: self.username.clone(), password: self.password.clone() }
    }
}

/// All that the relay remembers: the rooms by name, and the sessions by token.
pub struct AppState {
    pub rooms: AsyncCache<Sender<String>>,
    pub users: AsyncCache<User>,
}

impl AppState {
    /// A relay without rooms or sessions.
    pub fn new() -> (state: Self)
        ensures
            state.rooms@ == Map::<Seq<char>, Entry<Sender<String>>>::empty(),
            state.users@ == Map::<Seq<char>, Entry<User>>::empty(),
            state.rooms.spec_cleanup_interval_secs() == ROOM_SWEEP_SECS,
            state.users.spec_cleanup_interval_secs() == SESSION_SWEEP_SECS,
    {
        AppState { rooms: AsyncCache::new(ROOM_SWEEP_SECS), users: AsyncCache::new(SESSION_SWEEP_SECS) }
    }
}

} // verus!
