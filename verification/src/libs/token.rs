//! Opaque tokens: fixed-length strings of random letters and digits.
use vstd::prelude::*;

verus! {

/// Whether `c` may stand in a token: an ASCII letter or digit.
pub open spec fn is_token_char(c: char) -> bool {
    ('a' <= c <= 'z') || ('A' <= c <= 'Z') || ('0' <= c <= '9')
}

/// Whether `s` is made of token characters throughout.
pub open spec fn is_token(s: Seq<char>) -> bool {
    forall|i: int| 0 <= i < s.len() ==> is_token_char(#[trigger] s[i])
}

/// One sample of `rand::distr::Alphanumeric` from the thread's generator,
/// `rand::rng()`. Whatever the generator yields, the sample is the code of an
/// ASCII letter or digit.
#[verifier::external_body]
fn sample_alphanumeric() -> (byte: u8)
    ensures
        is_token_char(byte as char),
{
    rand::Rng::sample(&mut rand::rng(), rand::distr::Alphanumeric)
}

/// A fresh random token of `len` characters.
pub fn generate_token(len: usize) -> (token: String)
    ensures
        token@.len() == len,
        is_token(token@),
{
    let mut token = String::new();
    let mut i: usize = 0;
    while i < len
        invariant
            i <= len,
            token@.len() == i,
            is_token(token@),
        decreases len - i,
    {
        let byte: u8 = sample_alphanumeric();
        token.push(byte as char);
        i += 1;
    }
    token
}

} // verus!
