//! The secret that a launched instance must present.

use rand::distributions::Alphanumeric;
use rand::Rng;
use vstd::prelude::*;

verus! {

/// Number of characters in an authentication token.
pub const TOKEN_LENGTH: usize = 32;

/// An ASCII letter or digit.
pub open spec fn is_alphanumeric(c: char) -> bool {
    'A' <= c <= 'Z' || 'a' <= c <= 'z' || '0' <= c <= '9'
}

/// The form of an authentication token.
pub open spec fn is_token(s: Seq<char>) -> bool {
    s.len() == TOKEN_LENGTH && forall|i: int| 0 <= i < s.len() ==> is_alphanumeric(#[trigger] s[i])
}

/// Draws one byte from `rand`'s `Alphanumeric` distribution with the thread's
/// generator: an ASCII letter or digit. Which one it is rests on chance.
#[verifier::external_body]
fn random_alphanumeric() -> (res: u8)
    ensures
        is_alphanumeric(res as char),
{
    rand::thread_rng().sample(Alphanumeric)
}

/// The text of the given bytes, read as one character each.
pub fn token_text(bytes: &Vec<u8>) -> (res: String)
    ensures
        res@ == bytes@.map_values(|b: u8| b as char),
{
    let mut out = String::new();
    let mut i: usize = 0;
    while i < bytes.len()
        invariant
            i <= bytes@.len(),
            out@ == bytes@.take(i as int).map_values(|b: u8| b as char),
        decreases bytes@.len() - i,
    {
        out.push(bytes[i] as char);
        i += 1;
        assert(out@ =~= bytes@.take(i as int).map_values(|b: u8| b as char));
    }
    assert(bytes@.take(i as int) =~= bytes@);
    out
}

/// A fresh authentication token: letters and digits, drawn at random one by one.
pub fn generate_auth_token() -> (res: String)
    ensures
        is_token(res@),
{
    let mut bytes: Vec<u8> = Vec::new();
    while bytes.len() < TOKEN_LENGTH
        invariant
            bytes@.len() <= TOKEN_LENGTH,
            forall|i: int| 0 <= i < bytes@.len() ==> is_alphanumeric(#[trigger] bytes@[i] as char),
        decreases TOKEN_LENGTH - bytes@.len(),
    {
        bytes.push(random_alphanumeric());
    }
    token_text(&bytes)
}

/// The text of bytes has one character for each, of the same value.
pub proof fn a_token_text_is_its_bytes(bytes: Vec<u8>, res: String)
    requires
        call_ensures(token_text, (&bytes,), res),
    ensures
        res@.len() == bytes@.len(),
        forall|i: int| 0 <= i < bytes@.len() ==> #[trigger] res@[i] as int == bytes@[i],
{
}

/// A fresh token is thirty-two letters and digits.
pub proof fn a_token_is_letters_and_digits(res: String)
    requires
        call_ensures(generate_auth_token, (), res),
    ensures
        res@.len() == 32,
        forall|i: int|
            0 <= i < 32 ==> 'A' <= #[trigger] res@[i] <= 'Z' || 'a' <= res@[i] <= 'z' || '0'
                <= res@[i] <= '9',
{
    assert(forall|i: int| 0 <= i < 32 ==> is_alphanumeric(#[trigger] res@[i]));
}

} // verus!
