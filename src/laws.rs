use crate::banned_token_store::{ban_lapse, banned_at};
use crate::email::email_accepted;
use crate::error::AuthAPIError;
use crate::expiry::deadline_spec;
use crate::hashing::argon2_accepts;
use crate::password::password_long_enough;
use crate::service::{
    ban_until_spec, login_step, signup_step, verify_2fa_step, LoginStep,
};
use crate::token::{jwt_claims, token_verdict, TokenError, TOKEN_TTL_SECONDS};
use crate::two_fa::{code_accepted, uuid_canonical};
use crate::two_fa_code_store::{live_challenge, TEN_MINUTES_IN_SECONDS};
use vstd::prelude::*;

verus! {

/// Signup of a well-formed address and password succeeds exactly when the
/// address has no account; once the account exists, every further
/// well-formed signup for the address is a conflict, never a second success.
pub proof fn lemma_signup_once(
    users: Map<Seq<char>, (Seq<char>, bool)>,
    email: Seq<char>,
    password: Seq<char>,
    stored: (Seq<char>, bool),
    password2: Seq<char>,
)
    requires
        email_accepted(email),
        password_long_enough(password),
        password_long_enough(password2),
    ensures
        signup_step(users, email, password) is None <==> !users.contains_key(email),
        signup_step(users.insert(email, stored), email, password2) == Some(
            AuthAPIError::UserAlreadyExists,
        ),
{
}

/// For a user without a second factor, the right password leads to a token;
/// a wrong password and an unknown address meet one and the same error.
pub proof fn lemma_login_without_second_factor(
    users: Map<Seq<char>, (Seq<char>, bool)>,
    challenges: Map<Seq<char>, (Seq<char>, Seq<char>, u64)>,
    email: Seq<char>,
    password: Seq<char>,
    wrong_password: Seq<char>,
    unknown_email: Seq<char>,
    now: u64,
)
    requires
        email_accepted(email),
        password_long_enough(password),
        users.contains_key(email),
        !users[email].1,
        argon2_accepts(users[email].0, password),
    ensures
        login_step(users, challenges, email, password, now) == LoginStep::IssueToken,
        password_long_enough(wrong_password) && !argon2_accepts(users[email].0, wrong_password)
            ==> login_step(users, challenges, email, wrong_password, now) == LoginStep::Reject(
            AuthAPIError::IncorrectCredentials,
        ),
        email_accepted(unknown_email) && !users.contains_key(unknown_email) ==> login_step(
            users,
            challenges,
            unknown_email,
            password,
            now,
        ) == LoginStep::Reject(AuthAPIError::IncorrectCredentials),
{
}

/// For a user with a second factor, login opens a challenge, which is then
/// live; a second login while it is live is refused, so the first challenge
/// is never overwritten.
pub proof fn lemma_login_with_second_factor(
    users: Map<Seq<char>, (Seq<char>, bool)>,
    challenges: Map<Seq<char>, (Seq<char>, Seq<char>, u64)>,
    email: Seq<char>,
    password: Seq<char>,
    now: u64,
    login_attempt_id: Seq<char>,
    code: Seq<char>,
    later: u64,
)
    requires
        email_accepted(email),
        password_long_enough(password),
        users.contains_key(email),
        users[email].1,
        argon2_accepts(users[email].0, password),
        !live_challenge(challenges, email, now),
        now <= later < deadline_spec(now, TEN_MINUTES_IN_SECONDS),
    ensures
        login_step(users, challenges, email, password, now) == LoginStep::OpenChallenge,
        live_challenge(
            challenges.insert(
                email,
                (login_attempt_id, code, deadline_spec(now, TEN_MINUTES_IN_SECONDS)),
            ),
            email,
            later,
        ),
        login_step(
            users,
            challenges.insert(
                email,
                (login_attempt_id, code, deadline_spec(now, TEN_MINUTES_IN_SECONDS)),
            ),
            email,
            password,
            later,
        ) == LoginStep::Reject(AuthAPIError::UnexpectedError),
{
}

/// A challenge that login opened is redeemed by its own id and code at any
/// instant before it expires; once redeemed (and so removed), the same pair
/// fails at every instant.
pub proof fn lemma_redeem_once(
    challenges: Map<Seq<char>, (Seq<char>, Seq<char>, u64)>,
    email: Seq<char>,
    login_attempt_id: Seq<char>,
    code: Seq<char>,
    expires_at: u64,
    now: u64,
    later: u64,
)
    requires
        email_accepted(email),
        uuid_canonical(login_attempt_id) == Some(login_attempt_id),
        code_accepted(code),
        now < expires_at,
    ensures
        verify_2fa_step(
            challenges.insert(email, (login_attempt_id, code, expires_at)),
            email,
            login_attempt_id,
            code,
            now,
        ) is None,
        verify_2fa_step(
            challenges.insert(email, (login_attempt_id, code, expires_at)).remove(email),
            email,
            login_attempt_id,
            code,
            later,
        ) == Some(AuthAPIError::IncorrectCredentials),
{
}

/// A challenge opened at `created` cannot be redeemed, by any id and code,
/// at any instant `TEN_MINUTES_IN_SECONDS` or more after it, though nothing
/// deleted it.
pub proof fn lemma_challenge_expires(
    challenges: Map<Seq<char>, (Seq<char>, Seq<char>, u64)>,
    email: Seq<char>,
    stored_id: Seq<char>,
    stored_code: Seq<char>,
    created: u64,
    login_attempt_id: Seq<char>,
    code: Seq<char>,
    now: u64,
)
    requires
        now as int >= created as int + TEN_MINUTES_IN_SECONDS as int,
    ensures
        ({
            let opened = challenges.insert(
                email,
                (stored_id, stored_code, deadline_spec(created, TEN_MINUTES_IN_SECONDS)),
            );
            &&& !live_challenge(opened, email, now)
            &&& verify_2fa_step(opened, email, login_attempt_id, code, now) is Some
        }),
{
}

/// A token that logout accepted at `now` fails every later check, whether by
/// the ban or by its own expiry; and the ban lapses by itself at the later of
/// the token's expiry and `TOKEN_TTL_SECONDS` after `now`, with no removal.
pub proof fn lemma_revoked_token_rejected(
    banned: Map<Seq<char>, u64>,
    token: Seq<char>,
    secret: Seq<char>,
    now: u64,
    later: u64,
)
    requires
        token_verdict(jwt_claims(token, secret), banned, token, now) is Ok,
        now <= later,
    ensures
        ({
            let exp = jwt_claims(token, secret)->Some_0.1;
            let after = banned.insert(token, ban_lapse(banned, token, ban_until_spec(now, exp)));
            &&& token_verdict(jwt_claims(token, secret), after, token, later) is Err
            &&& after[token] == ban_until_spec(now, exp)
            &&& forall|t: u64|
                t as int >= now as int + TOKEN_TTL_SECONDS as int && t >= exp ==> !banned_at(
                    after,
                    token,
                    t,
                )
        }),
{
    let exp = jwt_claims(token, secret)->Some_0.1;
    let after = banned.insert(token, ban_lapse(banned, token, ban_until_spec(now, exp)));
    assert(!banned_at(banned, token, now));
    assert(after[token] >= exp);
    if later < exp {
        assert(banned_at(after, token, later));
        assert(token_verdict(jwt_claims(token, secret), after, token, later) == Err::<
            (Seq<char>, u64),
            TokenError,
        >(TokenError::Revoked));
    }
}

} // verus!
