use vstd::prelude::*;

verus! {

/// Whether `validator` accepts the text as an e-mail address (HTML5 rules,
/// with a fallback for internationalised domains).
pub uninterp spec fn email_accepted(s: Seq<char>) -> bool;

/// Relies on validator::validate_email: true exactly for the texts it accepts;
/// it rejects a text without `@` before anything else.
#[verifier::external_body]
fn check_email(s: &str) -> (r: bool)
    ensures
        r == email_accepted(s@),
        s@.len() == 0 ==> !r,
{
    validator::validate_email(s)
}

/// A validated e-mail address. Equality is on the address text.
#[derive(Clone)]
pub struct Email {
    value: String,
}

impl View for Email {
    type V = Seq<char>;

    closed spec fn view(&self) -> Seq<char> {
        self.value@
    }
}

/// Why a value could not be constructed from the text handed in.
#[derive(Debug, Clone, Copy, PartialEq, Eq, Structural)]
pub enum ValidationError {
    InvalidEmail,
    PasswordTooShort,
}

impl Email {
    /// The address, if `validator` accepts `email`.
    pub fn parse(email: String) -> (r: Result<Email, ValidationError>)
        ensures
            r is Ok <==> email_accepted(email@),
            r matches Ok(e) ==> e@ == email@,
            r matches Err(k) ==> k == ValidationError::InvalidEmail,
    {
        if check_email(email.as_str()) {
            Ok(Email { value: email })
        } else {
            Err(ValidationError::InvalidEmail)
        }
    }

    pub fn as_ref(&self) -> (r: &str)
        ensures
            r@ == self@,
    {
        self.value.as_str()
    }

    /// A second handle on the same address.
    pub fn duplicate(&self) -> (r: Email)
        ensures
            r@ == self@,
    {
        Email { value: self.value.clone() }
    }
}

impl PartialEq for Email {
    fn eq(&self, other: &Email) -> (r: bool) {
        self.value == other.value
    }
}

impl vstd::std_specs::cmp::PartialEqSpecImpl for Email {
    open spec fn obeys_eq_spec() -> bool {
        true
    }

    open spec fn eq_spec(&self, other: &Email) -> bool {
        self@ == other@
    }
}

} // verus!
