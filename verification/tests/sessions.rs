use room_relay::dto::RegisterDto;
use room_relay::handler::{
    cookies_of, index_handler, make_session_cookie, register_handler, token_of, Page,
};
use room_relay::service::{
    authenticate, handle_register, is_username_taken, register_with_token, RelayError, CONFLICT,
    SESSION_TTL_SECS, TOKEN_LEN,
};
use room_relay::AppState;

const SEC: u64 = 1_000_000_000;

fn request(username: &str, password: &str) -> RegisterDto {
    RegisterDto { username: username.to_string(), password: password.to_string() }
}

#[test]
fn session_policy() {
    assert_eq!(SESSION_TTL_SECS, 300);
    assert_eq!(TOKEN_LEN, 6);
    assert_eq!(CONFLICT, 409);
}

#[test]
fn second_registration_of_a_name_conflicts_until_the_first_expires() {
    let mut state = AppState::new();
    let (status, first) = handle_register(&mut state, &request("alice", "p1"), 0);
    assert_eq!(status, 201);
    let first = first.unwrap();

    let (status, second) = handle_register(&mut state, &request("alice", "p2"), 299 * SEC);
    assert_eq!(status, 409);
    assert_eq!(second.err(), Some(RelayError::Conflict));
    assert_eq!(state.users.len(), 1);
    assert_eq!(authenticate(&state.users, &first.token, 299 * SEC).unwrap().password, "p1");

    let (status, third) = handle_register(&mut state, &request("alice", "p2"), 300 * SEC);
    assert_eq!(status, 201);
    let third = third.unwrap();
    assert_eq!(authenticate(&state.users, &third.token, 300 * SEC).unwrap().password, "p2");
}

#[test]
fn the_name_is_free_again_after_a_purge() {
    let mut state = AppState::new();
    assert_eq!(handle_register(&mut state, &request("alice", "first"), 0).0, 201);
    state.users.purge_expired(300 * SEC);
    assert_eq!(state.users.len(), 0);
    assert_eq!(handle_register(&mut state, &request("alice", "second"), 300 * SEC).0, 201);
    assert_eq!(state.users.len(), 1);
}

#[test]
fn different_names_do_not_conflict() {
    let mut state = AppState::new();
    assert_eq!(handle_register(&mut state, &request("alice", "p"), 0).0, 201);
    assert_eq!(handle_register(&mut state, &request("bob", "p"), 0).0, 201);
    assert_eq!(handle_register(&mut state, &request("Alice", "p"), 0).0, 201);
    assert_eq!(handle_register(&mut state, &request("", "p"), 0).0, 201);
    assert_eq!(handle_register(&mut state, &request("bob", "q"), 1).0, 409);
}

#[test]
fn token_resolves_to_its_user_until_expiry() {
    let mut state = AppState::new();
    let (_, response) = handle_register(&mut state, &request("alice", "first"), 5 * SEC);
    let response = response.unwrap();
    assert_eq!(response.token.len(), 6);
    assert!(response.token.chars().all(|c| c.is_ascii_alphanumeric()));
    assert_eq!(response.redirect_url, "");

    let user = authenticate(&state.users, &response.token, 5 * SEC).unwrap();
    assert_eq!(user.username, "alice");
    assert_eq!(user.password, "first");
    let user = authenticate(&state.users, &response.token, 305 * SEC - 1).unwrap();
    assert_eq!(user.username, "alice");
    assert!(authenticate(&state.users, &response.token, 305 * SEC).is_none());
    state.users.purge_expired(305 * SEC);
    assert!(authenticate(&state.users, &response.token, 305 * SEC).is_none());
    assert_eq!(state.users.len(), 0);
}

#[test]
fn an_unknown_token_resolves_to_nobody() {
    let mut state = AppState::new();
    assert!(authenticate(&state.users, "abcdef", 0).is_none());
    register_with_token(&mut state.users, &request("alice", "p"), "abcdef".to_string(), 0);
    assert!(authenticate(&state.users, "abcdeg", 0).is_none());
    assert!(authenticate(&state.users, "alice", 0).is_none());
    assert!(authenticate(&state.users, "", 0).is_none());
}

#[test]
fn registration_under_a_given_token() {
    let mut state = AppState::new();
    let (status, response) =
        register_with_token(&mut state.users, &request("alice", "first"), "tok123".to_string(), 7);
    assert_eq!(status, 201);
    let response = response.unwrap();
    assert_eq!(response.token, "tok123");
    assert_eq!(response.redirect_url, "");
    assert_eq!(authenticate(&state.users, "tok123", 7).unwrap().username, "alice");

    let (status, response) =
        register_with_token(&mut state.users, &request("alice", "second"), "tok456".to_string(), 8);
    assert_eq!(status, 409);
    assert_eq!(response.err(), Some(RelayError::Conflict));
    assert!(authenticate(&state.users, "tok456", 8).is_none());

    // A token that is in use is taken over by the newcomer.
    let (status, _) = register_with_token(&mut state.users, &request("bob", "third"), "tok123".to_string(), 9);
    assert_eq!(status, 201);
    assert_eq!(authenticate(&state.users, "tok123", 9).unwrap().username, "bob");
    assert_eq!(state.users.len(), 1);
}

#[test]
fn a_name_is_taken_while_one_of_its_sessions_lives() {
    let mut state = AppState::new();
    assert!(!is_username_taken(&state.users, "alice", 0));
    register_with_token(&mut state.users, &request("bob", "p"), "t1".to_string(), 0);
    register_with_token(&mut state.users, &request("alice", "p"), "t2".to_string(), 10 * SEC);
    assert!(is_username_taken(&state.users, "alice", 10 * SEC));
    assert!(is_username_taken(&state.users, "bob", 10 * SEC));
    assert!(!is_username_taken(&state.users, "t2", 10 * SEC));
    assert!(!is_username_taken(&state.users, "bob", 300 * SEC));
    assert!(is_username_taken(&state.users, "alice", 300 * SEC));
    assert!(!is_username_taken(&state.users, "alice", 310 * SEC));
}

#[test]
fn registration_sets_the_session_cookie() {
    let mut state = AppState::new();
    let reply = register_handler(&mut state, &request("alice", "first"), 0);
    assert_eq!(reply.status, 201);
    let body = reply.body.unwrap();
    assert_eq!(
        reply.set_cookie.unwrap(),
        format!("token={}; HttpOnly; Path=/; Secure; SameSite=Strict; Max-Age=300", body.token)
    );
    assert_eq!(authenticate(&state.users, &body.token, 0).unwrap().username, "alice");
}

#[test]
fn rejected_registration_sets_no_cookie() {
    let mut state = AppState::new();
    register_handler(&mut state, &request("alice", "first"), 0);
    let reply = register_handler(&mut state, &request("alice", "second"), SEC);
    assert_eq!(reply.status, 409);
    assert!(reply.set_cookie.is_none());
    assert!(reply.body.is_none());
    assert_eq!(state.users.len(), 1);
}

#[test]
fn session_cookie_text() {
    assert_eq!(
        make_session_cookie("aB3dE9"),
        "token=aB3dE9; HttpOnly; Path=/; Secure; SameSite=Strict; Max-Age=300"
    );
    assert_eq!(make_session_cookie(""), "token=; HttpOnly; Path=/; Secure; SameSite=Strict; Max-Age=300");
}

#[test]
fn index_shows_the_room_page_to_a_live_session() {
    let mut state = AppState::new();
    register_with_token(&mut state.users, &request("alice", "p"), "tok123".to_string(), 0);

    assert_eq!(index_handler(&state, None, 0), Page::Index);
    assert_eq!(index_handler(&state, Some(""), 0), Page::Index);
    assert_eq!(index_handler(&state, Some("token=tok123"), 0), Page::Room);
    assert_eq!(index_handler(&state, Some("theme=dark; token=tok123; lang=en"), 0), Page::Room);
    assert_eq!(index_handler(&state, Some("token=nope; token=tok123"), 0), Page::Room);
    assert_eq!(index_handler(&state, Some("token=tok123=tail"), 0), Page::Room);
    assert_eq!(index_handler(&state, Some("token=tok123"), 300 * SEC), Page::Index);
}

#[test]
fn index_ignores_cookies_that_carry_no_live_token() {
    let mut state = AppState::new();
    register_with_token(&mut state.users, &request("alice", "p"), "tok123".to_string(), 0);

    assert_eq!(index_handler(&state, Some("token=tok124"), 0), Page::Index);
    assert_eq!(index_handler(&state, Some("token"), 0), Page::Index);
    assert_eq!(index_handler(&state, Some("token="), 0), Page::Index);
    assert_eq!(index_handler(&state, Some("Token=tok123"), 0), Page::Index);
    assert_eq!(index_handler(&state, Some(" token=tok123"), 0), Page::Index);
    assert_eq!(index_handler(&state, Some("theme=dark;token=tok123"), 0), Page::Index);
    assert_eq!(index_handler(&state, Some("token=tok123;"), 0), Page::Index);
    assert_eq!(index_handler(&state, Some("token==tok123"), 0), Page::Index);
    assert_eq!(index_handler(&state, Some("session=tok123"), 0), Page::Index);
    assert_eq!(index_handler(&state, Some("tok123"), 0), Page::Index);
}

#[test]
fn index_takes_a_header_that_is_not_ascii() {
    let mut state = AppState::new();
    register_with_token(&mut state.users, &request("alice", "p"), "tok123".to_string(), 0);
    assert_eq!(index_handler(&state, Some("name=zo\u{eb}; token=tok123"), 0), Page::Room);
    assert_eq!(index_handler(&state, Some("token=tok\u{ef}23"), 0), Page::Index);
}

#[test]
fn cookies_are_the_parts_between_semicolon_and_space() {
    assert_eq!(cookies_of("a=1; token=t; b"), vec!["a=1", "token=t", "b"]);
    assert_eq!(cookies_of(""), vec![""]);
    assert_eq!(cookies_of("a=1;token=t"), vec!["a=1;token=t"]);
}

#[test]
fn token_of_a_cookie() {
    assert_eq!(token_of("token=abc"), Some("abc".to_string()));
    assert_eq!(token_of("token=abc=def"), Some("abc".to_string()));
    assert_eq!(token_of("token="), Some("".to_string()));
    assert_eq!(token_of("token==abc"), Some("".to_string()));
    assert_eq!(token_of("token"), None);
    assert_eq!(token_of(""), None);
    assert_eq!(token_of("other=abc"), None);
    assert_eq!(token_of("=token"), None);
    assert_eq!(token_of("tokens=abc"), None);
}
