use crate::email::ValidationError;
use vstd::prelude::*;
use vstd::utf8::encode_utf8;

verus! {

/// The least number of bytes a password may have.
pub const MINIMUM_PASSWORD_LEN: usize = 8;

/// A password is long enough when its UTF-8 encoding has at least
/// `MINIMUM_PASSWORD_LEN` bytes.
pub open spec fn password_long_enough(s: Seq<char>) -> bool {
    encode_utf8(s).len() >= MINIMUM_PASSWORD_LEN
}

/// A plaintext password of acceptable length. It has no `Debug` form, so it
/// cannot reach a log by accident; `as_ref` is the one way to read it.
#[derive(Clone)]
pub struct Password {
    value: String,
}

impl View for Password {
    type V = Seq<char>;

    closed spec fn view(&self) -> Seq<char> {
        self.value@
    }
}

impl Password {
    pub open spec fn wf(&self) -> bool {
        password_long_enough(self@)
    }

    pub fn parse(password: String) -> (r: Result<Password, ValidationError>)
        ensures
            r is Ok <==> password_long_enough(password@),
            r matches Ok(p) ==> p@ == password@ && p.wf(),
            r matches Err(k) ==> k == ValidationError::PasswordTooShort,
    {
        let text = password.as_str();
        let n = text.as_bytes().len();
        if n < MINIMUM_PASSWORD_LEN {
            Err(ValidationError::PasswordTooShort)
        } else {
            Ok(Password { value: password })
        }
    }

    pub fn as_ref(&self) -> (r: &str)
        ensures
            r@ == self@,
    {
        self.value.as_str()
    }

    pub fn duplicate(&self) -> (r: Password)
        ensures
            r@ == self@,
    {
        Password { value: self.value.clone() }
    }
}

impl PartialEq for Password {
    fn eq(&self, other: &Password) -> (r: bool) {
        self.value == other.value
    }
}

impl vstd::std_specs::cmp::PartialEqSpecImpl for Password {
    open spec fn obeys_eq_spec() -> bool {
        true
    }

    open spec fn eq_spec(&self, other: &Password) -> bool {
        self@ == other@
    }
}

} // verus!
