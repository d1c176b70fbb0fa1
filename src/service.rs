use crate::api::{
    LoginRequest, Notification, SignupRequest, TwoFactorAuthResponse, Verify2FARequest,
};
use crate::banned_token_store::{ban_lapse, HashsetBannedTokenStore};
use crate::email::{email_accepted, Email};
use crate::error::AuthAPIError;
use crate::expiry::{deadline, deadline_spec};
use crate::hashing::argon2_accepts;
use crate::password::{password_long_enough, Password};
use crate::token::{
    generate_auth_token, jwt_claims, jwt_of, token_verdict, validate_token, TOKEN_TTL_SECONDS,
};
use crate::two_fa::{code_accepted, uuid_canonical, LoginAttemptId, TwoFACode};
use crate::two_fa_code_store::{live_challenge, HashMapTwoFACodeStore, TEN_MINUTES_IN_SECONDS};
use crate::user::User;
use crate::user_store::{HashMapUserStore, NewAccount, UserStoreError};
use vstd::prelude::*;

verus! {

/// The subject line of the message that carries a second-factor code.
pub const TWO_FA_SUBJECT: &'static str = "2FA code has been sent!";

/// What a signup owes, by the rules alone: `Some` of the error it must
/// return, or `None` where the account is to be created (which only a
/// failing hash function can still prevent).
pub open spec fn signup_step(
    users: Map<Seq<char>, (Seq<char>, bool)>,
    email: Seq<char>,
    password: Seq<char>,
) -> Option<AuthAPIError> {
    if !email_accepted(email) || !password_long_enough(password) {
        Some(AuthAPIError::InvalidCredentials)
    } else if users.contains_key(email) {
        Some(AuthAPIError::UserAlreadyExists)
    } else {
        None
    }
}

/// The branches of a login.
pub enum LoginStep {
    Reject(AuthAPIError),
    IssueToken,
    OpenChallenge,
}

/// The branch a login takes. An unknown address and a wrong password give
/// the same error.
pub open spec fn login_step(
    users: Map<Seq<char>, (Seq<char>, bool)>,
    challenges: Map<Seq<char>, (Seq<char>, Seq<char>, u64)>,
    email: Seq<char>,
    password: Seq<char>,
    now: u64,
) -> LoginStep {
    if !email_accepted(email) || !password_long_enough(password) {
        LoginStep::Reject(AuthAPIError::InvalidCredentials)
    } else if !users.contains_key(email) || !argon2_accepts(users[email].0, password) {
        LoginStep::Reject(AuthAPIError::IncorrectCredentials)
    } else if !users[email].1 {
        LoginStep::IssueToken
    } else if live_challenge(challenges, email, now) {
        LoginStep::Reject(AuthAPIError::UnexpectedError)
    } else {
        LoginStep::OpenChallenge
    }
}

/// What a second-factor redemption owes: `Some` of its error, or `None`
/// where the challenge is to be consumed. The id must be a UUID, and then
/// both it and the code must equal, as texts, those of the live challenge.
pub open spec fn verify_2fa_step(
    challenges: Map<Seq<char>, (Seq<char>, Seq<char>, u64)>,
    email: Seq<char>,
    login_attempt_id: Seq<char>,
    code: Seq<char>,
    now: u64,
) -> Option<AuthAPIError> {
    if !email_accepted(email) || uuid_canonical(login_attempt_id) is None {
        Some(AuthAPIError::InvalidCredentials)
    } else if !code_accepted(code) {
        Some(AuthAPIError::IncorrectCredentials)
    } else if !live_challenge(challenges, email, now) {
        Some(AuthAPIError::IncorrectCredentials)
    } else if login_attempt_id != challenges[email].0 || code != challenges[email].1 {
        Some(AuthAPIError::IncorrectCredentials)
    } else {
        None
    }
}

/// How long the ban of a token revoked at `now` lasts: a full token lifetime,
/// and never less than what is left of the token's own validity.
pub open spec fn ban_until_spec(now: u64, exp: u64) -> u64 {
    let d = deadline_spec(now, TOKEN_TTL_SECONDS);
    if exp > d {
        exp
    } else {
        d
    }
}

pub fn ban_until(now: u64, exp: u64) -> (r: u64)
    ensures
        r == ban_until_spec(now, exp),
{
    let d = deadline(now, TOKEN_TTL_SECONDS);
    if exp > d {
        exp
    } else {
        d
    }
}

/// The outcome of a successful login.
pub enum LoginOutcome {
    /// Signed in: the bearer token for the auth cookie.
    Authenticated(String),
    /// A challenge is open: the body for the client, and the message with the
    /// code for the out-of-band channel.
    ChallengeIssued(TwoFactorAuthResponse, Notification),
}

/// The orchestrator: it composes the stores and the token service into
/// signup, login, second-factor redemption, logout and token checks. Time
/// comes in as seconds since the epoch on each call.
pub struct AuthService {
    pub user_store: HashMapUserStore,
    pub banned_token_store: HashsetBannedTokenStore,
    pub two_fa_code_store: HashMapTwoFACodeStore,
    pub jwt_secret: String,
}

impl AuthService {
    pub open spec fn wf(&self) -> bool {
        &&& self.user_store.wf()
        &&& self.banned_token_store.wf()
        &&& self.two_fa_code_store.wf()
    }

    /// The key that signs and checks tokens.
    pub open spec fn secret(&self) -> Seq<char> {
        self.jwt_secret@
    }

    pub fn new(jwt_secret: String) -> (r: AuthService)
        ensures
            r.wf(),
            r.secret() == jwt_secret@,
            r.user_store@.is_empty(),
            r.banned_token_store@.is_empty(),
            r.two_fa_code_store@.is_empty(),
    {
        AuthService {
            user_store: HashMapUserStore::new(),
            banned_token_store: HashsetBannedTokenStore::new(),
            two_fa_code_store: HashMapTwoFACodeStore::new(),
            jwt_secret,
        }
    }

    /// Creates an account. Malformed input is refused before the store is
    /// touched; a known address is a conflict.
    pub fn signup(&mut self, request: SignupRequest) -> (r: Result<(), AuthAPIError>)
        requires
            old(self).wf(),
        ensures
            final(self).wf(),
            final(self).secret() == old(self).secret(),
            final(self).banned_token_store@ == old(self).banned_token_store@,
            final(self).two_fa_code_store@ == old(self).two_fa_code_store@,
            match signup_step(old(self).user_store@, request.email@, request.password@) {
                Some(e) => r == Err::<(), _>(e),
                None => r is Ok,
            },
            r is Err ==> final(self).user_store@ == old(self).user_store@,
            r is Ok ==> {
                let u = final(self).user_store@;
                &&& u == old(self).user_store@.insert(request.email@, u[request.email@])
                &&& u[request.email@].1 == request.requires_2fa
                &&& argon2_accepts(u[request.email@].0, request.password@)
            },
    {
        let email = match Email::parse(request.email) {
            Ok(e) => e,
            Err(_) => return Err(AuthAPIError::InvalidCredentials),
        };
        let password = match Password::parse(request.password) {
            Ok(p) => p,
            Err(_) => return Err(AuthAPIError::InvalidCredentials),
        };
        let user = User::new(email, request.requires_2fa, password);
        match self.user_store.add_user(user) {
            Ok(()) => Ok(()),
            Err(UserStoreError::UserAlreadyExists) => Err(AuthAPIError::UserAlreadyExists),
            Err(_) => Err(AuthAPIError::UnexpectedError),
        }
    }

    /// Checks the credentials, then either signs a token or opens a challenge
    /// with the id and code handed in.
    pub fn login_with_challenge(
        &mut self,
        request: LoginRequest,
        now: u64,
        login_attempt_id: LoginAttemptId,
        code: TwoFACode,
    ) -> (r: Result<LoginOutcome, AuthAPIError>)
        requires
            old(self).wf(),
        ensures
            final(self).wf(),
            final(self).secret() == old(self).secret(),
            final(self).user_store@ == old(self).user_store@,
            final(self).banned_token_store@ == old(self).banned_token_store@,
            match login_step(
                old(self).user_store@,
                old(self).two_fa_code_store@,
                request.email@,
                request.password@,
                now,
            ) {
                LoginStep::Reject(e) => r == Err::<LoginOutcome, _>(e)
                    && final(self).two_fa_code_store@ == old(self).two_fa_code_store@,
                LoginStep::IssueToken => {
                    &&& final(self).two_fa_code_store@ == old(self).two_fa_code_store@
                    &&& r matches Ok(o) && o matches LoginOutcome::Authenticated(t) && t@
                        == jwt_of(
                        request.email@,
                        deadline_spec(now, TOKEN_TTL_SECONDS),
                        old(self).secret(),
                    ) && t@.len() > 0 && jwt_claims(t@, old(self).secret()) == Some(
                        (request.email@, deadline_spec(now, TOKEN_TTL_SECONDS)),
                    )
                },
                LoginStep::OpenChallenge => {
                    &&& final(self).two_fa_code_store@ == old(self).two_fa_code_store@.insert(
                        request.email@,
                        (
                            login_attempt_id@,
                            code@,
                            deadline_spec(now, TEN_MINUTES_IN_SECONDS),
                        ),
                    )
                    &&& r matches Ok(o) && o matches LoginOutcome::ChallengeIssued(resp, note)
                        && resp.login_attempt_id@ == login_attempt_id@ && note.recipient@
                        == request.email@ && note.content@ == code@ && resp.message@
                        == "2FA required"@ && note.subject@ == "2FA code has been sent!"@
                },
            },
    {
        let (email, requires_2fa) = check_credentials(&self.user_store, request)?;
        start_session(
            &mut self.two_fa_code_store,
            email,
            requires_2fa,
            now,
            &self.jwt_secret,
            login_attempt_id,
            code,
        )
    }

    /// A login that draws a fresh login attempt id and code for a challenge.
    /// Whatever was drawn, the challenge that opens is the one whose id comes
    /// back to the caller and whose code goes out in the message, and the
    /// code is well formed.
    pub fn login(&mut self, request: LoginRequest, now: u64) -> (r: Result<
        LoginOutcome,
        AuthAPIError,
    >)
        requires
            old(self).wf(),
        ensures
            final(self).wf(),
            final(self).secret() == old(self).secret(),
            final(self).user_store@ == old(self).user_store@,
            final(self).banned_token_store@ == old(self).banned_token_store@,
            match login_step(
                old(self).user_store@,
                old(self).two_fa_code_store@,
                request.email@,
                request.password@,
                now,
            ) {
                LoginStep::Reject(e) => r == Err::<LoginOutcome, _>(e)
                    && final(self).two_fa_code_store@ == old(self).two_fa_code_store@,
                LoginStep::IssueToken => {
                    &&& final(self).two_fa_code_store@ == old(self).two_fa_code_store@
                    &&& r matches Ok(o) && o matches LoginOutcome::Authenticated(t) && t@
                        == jwt_of(
                        request.email@,
                        deadline_spec(now, TOKEN_TTL_SECONDS),
                        old(self).secret(),
                    ) && t@.len() > 0 && jwt_claims(t@, old(self).secret()) == Some(
                        (request.email@, deadline_spec(now, TOKEN_TTL_SECONDS)),
                    )
                },
                LoginStep::OpenChallenge => r matches Ok(o) && o matches LoginOutcome::ChallengeIssued(
                    resp,
                    note,
                ) && final(self).two_fa_code_store@ == old(self).two_fa_code_store@.insert(
                    request.email@,
                    (
                        resp.login_attempt_id@,
                        note.content@,
                        deadline_spec(now, TEN_MINUTES_IN_SECONDS),
                    ),
                ) && note.recipient@ == request.email@ && code_accepted(note.content@)
                    && uuid_canonical(resp.login_attempt_id@) == Some(resp.login_attempt_id@)
                    && resp.message@ == "2FA required"@ && note.subject@
                    == "2FA code has been sent!"@,
            },
    {
        let login_attempt_id = LoginAttemptId::default();
        let code = TwoFACode::default();
        self.login_with_challenge(request, now, login_attempt_id, code)
    }

    /// Redeems a challenge: on a match of both id and code it is consumed and
    /// a token is signed; a mismatch leaves it in place.
    pub fn verify_2fa(&mut self, request: Verify2FARequest, now: u64) -> (r: Result<
        String,
        AuthAPIError,
    >)
        requires
            old(self).wf(),
        ensures
            final(self).wf(),
            final(self).secret() == old(self).secret(),
            final(self).user_store@ == old(self).user_store@,
            final(self).banned_token_store@ == old(self).banned_token_store@,
            match verify_2fa_step(
                old(self).two_fa_code_store@,
                request.email@,
                request.login_attempt_id@,
                request.two_fa_code@,
                now,
            ) {
                Some(e) => r == Err::<String, _>(e) && final(self).two_fa_code_store@ == old(
                    self,
                ).two_fa_code_store@,
                None => {
                    &&& final(self).two_fa_code_store@ == old(self).two_fa_code_store@.remove(
                        request.email@,
                    )
                    &&& r matches Ok(t) && t@ == jwt_of(
                        request.email@,
                        deadline_spec(now, TOKEN_TTL_SECONDS),
                        old(self).secret(),
                    ) && t@.len() > 0 && jwt_claims(t@, old(self).secret()) == Some(
                        (request.email@, deadline_spec(now, TOKEN_TTL_SECONDS)),
                    )
                },
            },
    {
        redeem_challenge(&mut self.two_fa_code_store, &self.jwt_secret, request, now)
    }

    /// Checks a token: signature, expiry, then the revocation list.
    pub fn verify_token(&self, token: &String, now: u64) -> (r: Result<(), AuthAPIError>)
        requires
            self.wf(),
        ensures
            r is Ok <==> token_verdict(
                jwt_claims(token@, self.secret()),
                self.banned_token_store@,
                token@,
                now,
            ) is Ok,
            r is Err ==> r == Err::<(), _>(AuthAPIError::InvalidToken),
    {
        check_token(&self.banned_token_store, &self.jwt_secret, token, now)
    }

    /// Revokes the presented token, which must be valid; it stays banned
    /// until `ban_until_spec` of the instant and its expiry.
    pub fn logout(&mut self, token: Option<String>, now: u64) -> (r: Result<(), AuthAPIError>)
        requires
            old(self).wf(),
        ensures
            final(self).wf(),
            final(self).secret() == old(self).secret(),
            final(self).user_store@ == old(self).user_store@,
            final(self).two_fa_code_store@ == old(self).two_fa_code_store@,
            match token {
                None => r == Err::<(), _>(AuthAPIError::MissingToken)
                    && final(self).banned_token_store@ == old(self).banned_token_store@,
                Some(t) => match token_verdict(
                    jwt_claims(t@, old(self).secret()),
                    old(self).banned_token_store@,
                    t@,
                    now,
                ) {
                    Err(_) => r == Err::<(), _>(AuthAPIError::InvalidToken)
                        && final(self).banned_token_store@ == old(self).banned_token_store@,
                    Ok(c) => r is Ok && final(self).banned_token_store@ == old(
                        self,
                    ).banned_token_store@.insert(
                        t@,
                        ban_lapse(old(self).banned_token_store@, t@, ban_until_spec(now, c.1)),
                    ),
                },
            },
    {
        revoke_token(&mut self.banned_token_store, &self.jwt_secret, token, now)
    }
}

/// The account a signup asks for, with its password hashed. Malformed input
/// is refused before any hashing. No store is touched, so the hashing needs
/// no lock.
pub fn prepare_signup(request: SignupRequest) -> (r: Result<NewAccount, AuthAPIError>)
    ensures
        r is Err <==> !email_accepted(request.email@) || !password_long_enough(
            request.password@,
        ),
        r matches Err(e) ==> e == AuthAPIError::InvalidCredentials,
        r matches Ok(a) ==> {
            &&& a.wf()
            &&& a.entry().0 == request.email@
            &&& a.entry().1.1 == request.requires_2fa
            &&& argon2_accepts(a.entry().1.0, request.password@)
        },
{
    let email = match Email::parse(request.email) {
        Ok(e) => e,
        Err(_) => return Err(AuthAPIError::InvalidCredentials),
    };
    let password = match Password::parse(request.password) {
        Ok(p) => p,
        Err(_) => return Err(AuthAPIError::InvalidCredentials),
    };
    Ok(NewAccount::from_user(User::new(email, request.requires_2fa, password)))
}

/// Stores a prepared account; a known address is a conflict.
pub fn store_account(users: &mut HashMapUserStore, account: NewAccount) -> (r: Result<
    (),
    AuthAPIError,
>)
    requires
        old(users).wf(),
        account.wf(),
    ensures
        final(users).wf(),
        old(users)@.contains_key(account.entry().0) ==> r == Err::<(), _>(
            AuthAPIError::UserAlreadyExists,
        ) && final(users)@ == old(users)@,
        !old(users)@.contains_key(account.entry().0) ==> r is Ok && final(users)@ == old(
            users,
        )@.insert(account.entry().0, account.entry().1),
{
    match users.add_account(account) {
        Ok(()) => Ok(()),
        Err(_) => Err(AuthAPIError::UserAlreadyExists),
    }
}

/// The credential half of a login, which only reads the credential store:
/// the address and its second-factor flag where the password verifies. The
/// password is checked whether or not the address is known, so both
/// failures take the same time and give the same error.
pub fn check_credentials(users: &HashMapUserStore, request: LoginRequest) -> (r: Result<
    (Email, bool),
    AuthAPIError,
>)
    requires
        users.wf(),
    ensures
        !email_accepted(request.email@) || !password_long_enough(request.password@) ==> (
        r matches Err(e) && e == AuthAPIError::InvalidCredentials),
        email_accepted(request.email@) && password_long_enough(request.password@) ==> {
            if users@.contains_key(request.email@) && argon2_accepts(
                users@[request.email@].0,
                request.password@,
            ) {
                r matches Ok(p) && p.0@ == request.email@ && p.1 == users@[request.email@].1
            } else {
                r matches Err(e) && e == AuthAPIError::IncorrectCredentials
            }
        },
{
    let email = match Email::parse(request.email) {
        Ok(e) => e,
        Err(_) => return Err(AuthAPIError::InvalidCredentials),
    };
    let password = match Password::parse(request.password) {
        Ok(p) => p,
        Err(_) => return Err(AuthAPIError::InvalidCredentials),
    };
    let found = users.get_user(&email);
    let checked = users.validate_user(&email, &password);
    let user = match found {
        Ok(u) => u,
        Err(_) => return Err(AuthAPIError::IncorrectCredentials),
    };
    if checked.is_err() {
        return Err(AuthAPIError::IncorrectCredentials);
    }
    Ok((email, user.requires_2fa))
}

/// The session half of a login, for an address whose password checked out:
/// a token where it has no second factor, else a challenge with the id and
/// code handed in. Only the challenge store is touched.
pub fn start_session(
    codes: &mut HashMapTwoFACodeStore,
    email: Email,
    requires_2fa: bool,
    now: u64,
    secret: &String,
    login_attempt_id: LoginAttemptId,
    code: TwoFACode,
) -> (r: Result<LoginOutcome, AuthAPIError>)
    requires
        old(codes).wf(),
    ensures
        final(codes).wf(),
        !requires_2fa ==> {
            &&& final(codes)@ == old(codes)@
            &&& r matches Ok(o) && o matches LoginOutcome::Authenticated(t) && t@ == jwt_of(
                email@,
                deadline_spec(now, TOKEN_TTL_SECONDS),
                secret@,
            ) && t@.len() > 0 && jwt_claims(t@, secret@) == Some(
                (email@, deadline_spec(now, TOKEN_TTL_SECONDS)),
            )
        },
        requires_2fa && live_challenge(old(codes)@, email@, now) ==> (r matches Err(e) && e
            == AuthAPIError::UnexpectedError),
        requires_2fa && live_challenge(old(codes)@, email@, now) ==> final(codes)@ == old(
            codes,
        )@,
        requires_2fa && !live_challenge(old(codes)@, email@, now) ==> {
            &&& final(codes)@ == old(codes)@.insert(
                email@,
                (login_attempt_id@, code@, deadline_spec(now, TEN_MINUTES_IN_SECONDS)),
            )
            &&& r matches Ok(o) && o matches LoginOutcome::ChallengeIssued(resp, note)
                && resp.login_attempt_id@ == login_attempt_id@ && note.recipient@ == email@
                && note.content@ == code@ && resp.message@ == "2FA required"@ && note.subject@
                == "2FA code has been sent!"@
        },
{
    if !requires_2fa {
        return match generate_auth_token(&email, now, secret) {
            Some(t) => Ok(LoginOutcome::Authenticated(t)),
            None => Err(AuthAPIError::UnexpectedError),
        };
    }
    let id_text = login_attempt_id.as_ref().to_owned();
    let code_text = code.as_ref().to_owned();
    if codes.add_code(email.duplicate(), login_attempt_id, code, now).is_err() {
        return Err(AuthAPIError::UnexpectedError);
    }
    proof {
        reveal_strlit("2FA required");
        reveal_strlit("2FA code has been sent!");
    }
    let response = TwoFactorAuthResponse {
        message: "2FA required".to_owned(),
        login_attempt_id: id_text,
    };
    let note = Notification {
        recipient: email,
        subject: TWO_FA_SUBJECT.to_owned(),
        content: code_text,
    };
    Ok(LoginOutcome::ChallengeIssued(response, note))
}

/// Redeems a challenge: on a match of both id and code it is consumed and a
/// token is signed; a mismatch leaves it in place.
pub fn redeem_challenge(
    codes: &mut HashMapTwoFACodeStore,
    secret: &String,
    request: Verify2FARequest,
    now: u64,
) -> (r: Result<String, AuthAPIError>)
    requires
        old(codes).wf(),
    ensures
        final(codes).wf(),
        match verify_2fa_step(
            old(codes)@,
            request.email@,
            request.login_attempt_id@,
            request.two_fa_code@,
            now,
        ) {
            Some(e) => r == Err::<String, _>(e) && final(codes)@ == old(codes)@,
            None => {
                &&& final(codes)@ == old(codes)@.remove(request.email@)
                &&& r matches Ok(t) && t@ == jwt_of(
                    request.email@,
                    deadline_spec(now, TOKEN_TTL_SECONDS),
                    secret@,
                ) && t@.len() > 0 && jwt_claims(t@, secret@) == Some(
                    (request.email@, deadline_spec(now, TOKEN_TTL_SECONDS)),
                )
            },
        },
{
    let email = match Email::parse(request.email) {
        Ok(e) => e,
        Err(_) => return Err(AuthAPIError::InvalidCredentials),
    };
    let presented_id = request.login_attempt_id.clone();
    if LoginAttemptId::parse(request.login_attempt_id).is_err() {
        return Err(AuthAPIError::InvalidCredentials);
    }
    let code = match TwoFACode::parse(request.two_fa_code) {
        Ok(c) => c,
        Err(_) => return Err(AuthAPIError::IncorrectCredentials),
    };
    let (stored_id, stored_code) = match codes.get_code(&email, now) {
        Ok(p) => p,
        Err(_) => return Err(AuthAPIError::IncorrectCredentials),
    };
    let stored_id_text = stored_id.as_ref().to_owned();
    if !(stored_id_text == presented_id) || !(stored_code == code) {
        return Err(AuthAPIError::IncorrectCredentials);
    }
    if codes.remove_code(&email, now).is_err() {
        return Err(AuthAPIError::UnexpectedError);
    }
    match generate_auth_token(&email, now, secret) {
        Some(t) => Ok(t),
        None => Err(AuthAPIError::UnexpectedError),
    }
}

/// Checks a token: signature, expiry, then the revocation list.
pub fn check_token(banned: &HashsetBannedTokenStore, secret: &String, token: &String, now: u64) -> (r:
    Result<(), AuthAPIError>)
    requires
        banned.wf(),
    ensures
        r is Ok <==> token_verdict(jwt_claims(token@, secret@), banned@, token@, now) is Ok,
        r is Err ==> r == Err::<(), _>(AuthAPIError::InvalidToken),
{
    match validate_token(token, now, secret, banned) {
        Ok(_) => Ok(()),
        Err(_) => Err(AuthAPIError::InvalidToken),
    }
}

/// Revokes the presented token, which must be valid; it stays banned until
/// `ban_until_spec` of the instant and its expiry.
pub fn revoke_token(
    banned: &mut HashsetBannedTokenStore,
    secret: &String,
    token: Option<String>,
    now: u64,
) -> (r: Result<(), AuthAPIError>)
    requires
        old(banned).wf(),
    ensures
        final(banned).wf(),
        match token {
            None => r == Err::<(), _>(AuthAPIError::MissingToken) && final(banned)@ == old(
                banned,
            )@,
            Some(t) => match token_verdict(jwt_claims(t@, secret@), old(banned)@, t@, now) {
                Err(_) => r == Err::<(), _>(AuthAPIError::InvalidToken) && final(banned)@ == old(
                    banned,
                )@,
                Ok(c) => r is Ok && final(banned)@ == old(banned)@.insert(
                    t@,
                    ban_lapse(old(banned)@, t@, ban_until_spec(now, c.1)),
                ),
            },
        },
{
    let token = match token {
        Some(t) => t,
        None => return Err(AuthAPIError::MissingToken),
    };
    let claims = match validate_token(&token, now, secret, banned) {
        Ok(c) => c,
        Err(_) => return Err(AuthAPIError::InvalidToken),
    };
    let until = ban_until(now, claims.exp);
    match banned.insert(token, until) {
        Ok(()) => Ok(()),
        Err(_) => Err(AuthAPIError::UnexpectedError),
    }
}

} // verus!
