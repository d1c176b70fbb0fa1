use crate::email::Email;
use crate::two_fa::{code_accepted, uuid_canonical, LoginAttemptId, TwoFACode};
use crate::two_fa_code_store::TwoFACodeStoreError;
use vstd::prelude::*;
use vstd::string::*;

verus! {

/// The namespace of challenge keys in Redis.
pub const TWO_FA_CODE_PREFIX: &'static str = "two_fa_code:";

/// The JSON text `serde_json` writes for the pair `[a, b]` of strings.
pub uninterp spec fn json_pair_text(a: Seq<char>, b: Seq<char>) -> Seq<char>;

/// The pair of strings that `serde_json` reads from `text`, if it is a JSON
/// array of two strings.
pub uninterp spec fn json_pair_read(text: Seq<char>) -> Option<(Seq<char>, Seq<char>)>;

/// Relies on serde_json::to_string on a pair of strings: a JSON array of
/// the two, written into a `Vec`, which cannot fail.
#[verifier::external_body]
fn pair_to_json(a: &str, b: &str) -> (r: Option<String>)
    ensures
        r is Some,
        r matches Some(t) ==> t@ == json_pair_text(a@, b@),
{
    serde_json::to_string(&(a, b)).ok()
}

/// Relies on serde_json::from_str into a pair of strings.
#[verifier::external_body]
fn pair_from_json(text: &str) -> (r: Option<(String, String)>)
    ensures
        r is Some <==> json_pair_read(text@) is Some,
        r matches Some(p) ==> json_pair_read(text@) == Some((p.0@, p.1@)),
{
    serde_json::from_str::<(String, String)>(text).ok()
}

pub open spec fn two_fa_key(email: Seq<char>) -> Seq<char> {
    "two_fa_code:"@ + email
}

/// The Redis key of the challenge of `email`.
pub fn get_key(email: &Email) -> (r: String)
    ensures
        r@ == two_fa_key(email@),
{
    proof {
        reveal_strlit("two_fa_code:");
    }
    let mut key = String::from_str(TWO_FA_CODE_PREFIX);
    key.append(email.as_ref());
    key
}

/// The stored value of a challenge: its id and code as a JSON pair.
pub fn encode_two_fa_tuple(login_attempt_id: &LoginAttemptId, code: &TwoFACode) -> (r: Result<
    String,
    TwoFACodeStoreError,
>)
    ensures
        r matches Ok(t) && t@ == json_pair_text(login_attempt_id@, code@),
{
    match pair_to_json(login_attempt_id.as_ref(), code.as_ref()) {
        Some(t) => Ok(t),
        None => Err(TwoFACodeStoreError::UnexpectedError),
    }
}

/// Turns the pair read back from a stored value into an id and a code; a
/// value that is not such a pair, or holds a malformed id or code, is an
/// unexpected error.
pub fn parse_two_fa_tuple(pair: Option<(String, String)>) -> (r: Result<
    (LoginAttemptId, TwoFACode),
    TwoFACodeStoreError,
>)
    ensures
        match pair {
            None => r == Err::<(LoginAttemptId, TwoFACode), _>(
                TwoFACodeStoreError::UnexpectedError,
            ),
            Some(p) => {
                &&& r is Ok <==> uuid_canonical(p.0@) is Some && code_accepted(p.1@)
                &&& r matches Ok(v) ==> uuid_canonical(p.0@) == Some(v.0@) && v.1@ == p.1@
                &&& r is Err ==> r == Err::<(LoginAttemptId, TwoFACode), _>(
                    TwoFACodeStoreError::UnexpectedError,
                )
            },
        },
{
    let (id, code) = match pair {
        Some(p) => p,
        None => return Err(TwoFACodeStoreError::UnexpectedError),
    };
    let login_attempt_id = match LoginAttemptId::parse(id) {
        Ok(a) => a,
        Err(_) => return Err(TwoFACodeStoreError::UnexpectedError),
    };
    match TwoFACode::parse(code) {
        Ok(c) => Ok((login_attempt_id, c)),
        Err(_) => Err(TwoFACodeStoreError::UnexpectedError),
    }
}

/// Reads a stored challenge value back.
pub fn decode_two_fa_tuple(text: &str) -> (r: Result<(LoginAttemptId, TwoFACode), TwoFACodeStoreError>)
    ensures
        match json_pair_read(text@) {
            None => r == Err::<(LoginAttemptId, TwoFACode), _>(
                TwoFACodeStoreError::UnexpectedError,
            ),
            Some(p) => {
                &&& r is Ok <==> uuid_canonical(p.0) is Some && code_accepted(p.1)
                &&& r matches Ok(v) ==> uuid_canonical(p.0) == Some(v.0@) && v.1@ == p.1
                &&& r is Err ==> r == Err::<(LoginAttemptId, TwoFACode), _>(
                    TwoFACodeStoreError::UnexpectedError,
                )
            },
        },
{
    parse_two_fa_tuple(pair_from_json(text))
}

} // verus!
