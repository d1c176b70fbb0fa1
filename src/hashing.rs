use argon2::password_hash::{PasswordHasher, PasswordVerifier, SaltString};
use vstd::prelude::*;

verus! {

/// Whether Argon2 verification of `candidate` against the PHC-format string
/// `hash` succeeds: the string parses, and hashing `candidate` with the
/// algorithm, version, parameters and salt it names gives its output.
pub uninterp spec fn argon2_accepts(hash: Seq<char>, candidate: Seq<char>) -> bool;

/// Whether `hash` is a PHC string that `Argon2::hash_password` wrote with
/// parameters that `argon2::Params::new` accepted.
pub uninterp spec fn issued_hash(hash: Seq<char>) -> bool;

/// The costs that `argon2::Params::new` accepts: at least 8 KiB of memory,
/// and 8 KiB per lane; at least one pass; from 1 to `0xFFFFFF` lanes.
pub open spec fn argon2_costs_accepted(m_cost: u32, t_cost: u32, p_cost: u32) -> bool {
    &&& 8 <= m_cost
    &&& 1 <= t_cost
    &&& 1 <= p_cost <= 0xFFFFFF
    &&& 8 * p_cost <= m_cost
}

/// The memory cost, in KiB, of a new password hash.
pub const HASH_MEMORY_KIB: u32 = 15000;

/// The number of passes of a new password hash.
pub const HASH_ITERATIONS: u32 = 2;

/// The degree of parallelism of a new password hash.
pub const HASH_LANES: u32 = 1;

/// Relies on argon2's `PasswordHash::new` and `Argon2::verify_password`: true
/// exactly when `candidate` verifies against `expected_hash`. Only hashes
/// this crate issued are checked: their parameters were accepted once, so
/// reading them back cannot overflow.
#[verifier::external_body]
pub(crate) fn verify_password_hash(expected_hash: &str, candidate: &str) -> (r: bool)
    requires
        issued_hash(expected_hash@),
    ensures
        r == argon2_accepts(expected_hash@, candidate@),
{
    match argon2::PasswordHash::new(expected_hash) {
        Ok(h) => argon2::Argon2::default().verify_password(candidate.as_bytes(), &h).is_ok(),
        Err(_) => false,
    }
}

/// Relies on argon2's `Argon2::hash_password` (Argon2id, version 0x13) with a
/// fresh random salt from `SaltString::generate`: the PHC string it returns
/// embeds salt and parameters, so verifying the same password against it
/// succeeds. With costs that `Params::new` accepts no step of it can fail.
#[verifier::external_body]
pub(crate) fn compute_password_hash(password: &str, m_cost: u32, t_cost: u32, p_cost: u32) -> (r:
    Option<String>)
    requires
        argon2_costs_accepted(m_cost, t_cost, p_cost),
    ensures
        r is Some,
        r matches Some(h) ==> argon2_accepts(h@, password@) && issued_hash(h@),
{
    let salt = SaltString::generate(&mut rand::thread_rng());
    let params = argon2::Params::new(m_cost, t_cost, p_cost, None).ok()?;
    let hasher = argon2::Argon2::new(argon2::Algorithm::Argon2id, argon2::Version::V0x13, params);
    hasher.hash_password(password.as_bytes(), &salt).ok().map(|h| h.to_string())
}

} // verus!
