use vstd::prelude::*;

verus! {

/// The instant `ttl` seconds after `now`, held at `u64::MAX` where the sum
/// would not fit.
pub open spec fn deadline_spec(now: u64, ttl: u64) -> u64 {
    if now as int + ttl as int <= u64::MAX as int {
        (now + ttl) as u64
    } else {
        u64::MAX
    }
}

pub fn deadline(now: u64, ttl: u64) -> (r: u64)
    ensures
        r == deadline_spec(now, ttl),
{
    if now <= u64::MAX - ttl {
        now + ttl
    } else {
        u64::MAX
    }
}

/// An entry that expires at `expires_at` is live at every earlier instant.
pub open spec fn is_live(expires_at: u64, now: u64) -> bool {
    now < expires_at
}

} // verus!
