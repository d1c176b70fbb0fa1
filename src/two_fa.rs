use rand::Rng;
use vstd::prelude::*;
use vstd::string::*;

verus! {

/// What `uuid` makes of a text: `Uuid::parse_str`, then the hyphenated
/// lower-case form of the parsed value; `None` where parsing fails.
pub uninterp spec fn uuid_canonical(s: Seq<char>) -> Option<Seq<char>>;

/// Relies on uuid::Uuid::parse_str and the `Display` form of the parsed value.
#[verifier::external_body]
fn canonical_uuid(s: &str) -> (r: Option<String>)
    ensures
        r is Some <==> uuid_canonical(s@) is Some,
        r matches Some(t) ==> uuid_canonical(s@) == Some(t@),
{
    uuid::Uuid::parse_str(s).ok().map(|u| u.to_string())
}

/// Relies on uuid::Uuid::new_v4: a random version-4 UUID in hyphenated form,
/// which `parse_str` accepts and writes back unchanged.
#[verifier::external_body]
fn fresh_uuid_text() -> (r: String)
    ensures
        uuid_canonical(r@) == Some(r@),
{
    uuid::Uuid::new_v4().to_string()
}

/// Relies on rand::Rng::gen_range with the thread-local generator: a value of
/// the half-open range; an empty range would panic.
#[verifier::external_body]
fn random_in_range(low: u32, high: u32) -> (r: u32)
    requires
        low < high,
    ensures
        low <= r < high,
{
    rand::thread_rng().gen_range(low..high)
}

/// Relies on `u32`'s `Display` (through `to_string`): its decimal digits.
#[verifier::external_body]
fn decimal_text(n: u32) -> (r: String)
    ensures
        r@.len() > 0,
        all_digits(r@),
        digits_value(r@) == n as int,
{
    n.to_string()
}

pub open spec fn is_digit(c: char) -> bool {
    '0' <= c && c <= '9'
}

pub open spec fn all_digits(s: Seq<char>) -> bool {
    forall|i: int| 0 <= i < s.len() ==> is_digit(s[i])
}

/// The number that a run of decimal digits writes.
pub open spec fn digits_value(s: Seq<char>) -> int
    decreases s.len(),
{
    if s.len() == 0 {
        0
    } else {
        digits_value(s.drop_last()) * 10 + (s.last() as int - '0' as int)
    }
}

/// The text after an optional leading `+`.
pub open spec fn unsigned_part(s: Seq<char>) -> Seq<char> {
    if s.len() > 0 && s[0] == '+' {
        s.subrange(1, s.len() as int)
    } else {
        s
    }
}

/// What `str::parse::<u32>` accepts: an optional `+`, then one or more ASCII
/// digits whose value fits in 32 bits.
pub open spec fn is_u32_text(s: Seq<char>) -> bool {
    let d = unsigned_part(s);
    d.len() > 0 && all_digits(d) && digits_value(d) <= u32::MAX
}

pub open spec fn u32_text_value(s: Seq<char>) -> int {
    digits_value(unsigned_part(s))
}

pub const CODE_MIN: u32 = 100_000;

pub const CODE_MAX: u32 = 999_999;

/// A second-factor code: a `u32` text with a value of six digits.
pub open spec fn code_accepted(s: Seq<char>) -> bool {
    is_u32_text(s) && CODE_MIN <= u32_text_value(s) <= CODE_MAX
}

/// Reads a `u32` written in decimal, as `str::parse::<u32>` does.
fn parse_u32(s: &str) -> (r: Option<u32>)
    ensures
        r is Some <==> is_u32_text(s@),
        r matches Some(v) ==> v as int == u32_text_value(s@),
{
    let n = s.unicode_len();
    let mut start: usize = 0;
    if n > 0 && s.get_char(0) == '+' {
        start = 1;
    }
    proof {
        assert(unsigned_part(s@) =~= s@.subrange(start as int, n as int));
    }
    if start >= n {
        return None;
    }
    let mut value: u64 = 0;
    let mut over = false;
    let mut i: usize = start;
    while i < n
        invariant
            start <= i <= n,
            n == s@.len(),
            unsigned_part(s@) == s@.subrange(start as int, n as int),
            all_digits(s@.subrange(start as int, i as int)),
            !over ==> value as int == digits_value(s@.subrange(start as int, i as int)) && value
                <= u32::MAX,
            over ==> digits_value(s@.subrange(start as int, i as int)) > u32::MAX,
        decreases n - i,
    {
        let c = s.get_char(i);
        if !('0' <= c && c <= '9') {
            proof {
                let d = unsigned_part(s@);
                assert(d[i - start] == c);
            }
            return None;
        }
        let ghost prefix = s@.subrange(start as int, i as int);
        proof {
            assert(s@.subrange(start as int, i + 1).drop_last() =~= prefix);
            assert(s@.subrange(start as int, i + 1).last() == c);
        }
        if !over {
            let next: u64 = value * 10 + ((c as u32) - ('0' as u32)) as u64;
            if next > u32::MAX as u64 {
                over = true;
            } else {
                value = next;
            }
        }
        i = i + 1;
    }
    proof {
        assert(s@.subrange(start as int, n as int) == s@.subrange(start as int, i as int));
    }
    if over {
        None
    } else {
        Some(value as u32)
    }
}

/// Why a login attempt id or a second-factor code was refused.
#[derive(Debug, Clone, Copy, PartialEq, Eq, Structural)]
pub enum TwoFACodeError {
    InvalidUuid,
    CodeOutOfRange,
}

/// The id of one in-flight second-factor challenge: the canonical text of a
/// UUID. Ids compare as texts.
#[derive(Clone)]
pub struct LoginAttemptId {
    id: String,
}

impl View for LoginAttemptId {
    type V = Seq<char>;

    closed spec fn view(&self) -> Seq<char> {
        self.id@
    }
}

impl LoginAttemptId {
    /// The canonical form of `id`, if `uuid` reads it as a UUID.
    pub fn parse(id: String) -> (r: Result<LoginAttemptId, TwoFACodeError>)
        ensures
            r is Ok <==> uuid_canonical(id@) is Some,
            r matches Ok(a) ==> uuid_canonical(id@) == Some(a@),
            r matches Err(k) ==> k == TwoFACodeError::InvalidUuid,
    {
        match canonical_uuid(id.as_str()) {
            Some(text) => Ok(LoginAttemptId { id: text }),
            None => Err(TwoFACodeError::InvalidUuid),
        }
    }

    pub fn as_ref(&self) -> (r: &str)
        ensures
            r@ == self@,
    {
        self.id.as_str()
    }

    pub fn duplicate(&self) -> (r: LoginAttemptId)
        ensures
            r@ == self@,
    {
        LoginAttemptId { id: self.id.clone() }
    }
}

impl Default for LoginAttemptId {
    /// A fresh random id, already in canonical form.
    fn default() -> (r: LoginAttemptId)
        ensures
            uuid_canonical(r@) == Some(r@),
    {
        LoginAttemptId { id: fresh_uuid_text() }
    }
}

impl PartialEq for LoginAttemptId {
    fn eq(&self, other: &LoginAttemptId) -> (r: bool) {
        self.id == other.id
    }
}

impl vstd::std_specs::cmp::PartialEqSpecImpl for LoginAttemptId {
    open spec fn obeys_eq_spec() -> bool {
        true
    }

    open spec fn eq_spec(&self, other: &LoginAttemptId) -> bool {
        self@ == other@
    }
}

/// A six-digit second-factor code, kept as the text it was given in.
#[derive(Clone)]
pub struct TwoFACode {
    code: String,
}

impl View for TwoFACode {
    type V = Seq<char>;

    closed spec fn view(&self) -> Seq<char> {
        self.code@
    }
}

impl TwoFACode {
    pub open spec fn wf(&self) -> bool {
        code_accepted(self@)
    }

    /// The code, if `code` reads as a `u32` from `CODE_MIN` to `CODE_MAX`.
    pub fn parse(code: String) -> (r: Result<TwoFACode, TwoFACodeError>)
        ensures
            r is Ok <==> code_accepted(code@),
            r matches Ok(c) ==> c@ == code@ && c.wf(),
            r == Err::<TwoFACode, _>(TwoFACodeError::InvalidUuid) <==> !is_u32_text(code@),
            r == Err::<TwoFACode, _>(TwoFACodeError::CodeOutOfRange) <==> is_u32_text(code@)
                && !code_accepted(code@),
    {
        match parse_u32(code.as_str()) {
            None => Err(TwoFACodeError::InvalidUuid),
            Some(v) => {
                if CODE_MIN <= v && v <= CODE_MAX {
                    Ok(TwoFACode { code })
                } else {
                    Err(TwoFACodeError::CodeOutOfRange)
                }
            },
        }
    }

    pub fn as_ref(&self) -> (r: &str)
        ensures
            r@ == self@,
    {
        self.code.as_str()
    }

    pub fn duplicate(&self) -> (r: TwoFACode)
        ensures
            r@ == self@,
    {
        TwoFACode { code: self.code.clone() }
    }
}

impl Default for TwoFACode {
    /// A random code from `CODE_MIN` to `CODE_MAX`, both included.
    fn default() -> (r: TwoFACode)
        ensures
            r.wf(),
    {
        let n = random_in_range(CODE_MIN, CODE_MAX + 1);
        let text = decimal_text(n);
        proof {
            assert(unsigned_part(text@) == text@);
        }
        TwoFACode { code: text }
    }
}

impl PartialEq for TwoFACode {
    fn eq(&self, other: &TwoFACode) -> (r: bool) {
        self.code == other.code
    }
}

impl vstd::std_specs::cmp::PartialEqSpecImpl for TwoFACode {
    open spec fn obeys_eq_spec() -> bool {
        true
    }

    open spec fn eq_spec(&self, other: &TwoFACode) -> bool {
        self@ == other@
    }
}

} // verus!
