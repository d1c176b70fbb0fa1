use vstd::prelude::*;
use vstd::string::*;

verus! {

/// The namespace of banned-token keys in Redis.
pub const BANNED_TOKEN_KEY_PREFIX: &'static str = "banned_token:";

pub open spec fn banned_token_key(token: Seq<char>) -> Seq<char> {
    "banned_token:"@ + token
}

/// The Redis key of the ban on `token`.
pub fn get_key(token: &str) -> (r: String)
    ensures
        r@ == banned_token_key(token@),
{
    proof {
        reveal_strlit("banned_token:");
    }
    let mut key = String::from_str(BANNED_TOKEN_KEY_PREFIX);
    key.append(token);
    key
}

} // verus!
