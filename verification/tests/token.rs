use room_relay::libs::token::generate_token;

#[test]
fn token_has_the_length_asked_for() {
    for len in [0usize, 1, 6, 64] {
        assert_eq!(generate_token(len).chars().count(), len);
    }
}

#[test]
fn token_is_made_of_letters_and_digits() {
    for _ in 0..200 {
        let token = generate_token(6);
        assert_eq!(token.len(), 6);
        assert!(token.chars().all(|c| c.is_ascii_alphanumeric()));
    }
}

#[test]
fn tokens_differ_from_call_to_call() {
    let first = generate_token(32);
    let second = generate_token(32);
    assert_ne!(first, second);
}
