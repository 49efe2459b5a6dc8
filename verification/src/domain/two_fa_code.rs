//! The six-digit one-time code of a two-factor challenge.

use vstd::prelude::*;

use crate::domain::error::ValidationError;
use crate::domain::secret::SecretString;

verus! {

/// The decimal digit character for a value below ten.
pub open spec fn decimal_digit(d: u32) -> char
    recommends
        d < 10,
{
    (48 + d) as char
}

/// The six-character zero-padded decimal form of a number below one
/// million.
pub open spec fn six_digit_decimal(n: u32) -> Seq<char>
    recommends
        n < 1000000,
{
    seq![
        decimal_digit(n / 100000 % 10),
        decimal_digit(n / 10000 % 10),
        decimal_digit(n / 1000 % 10),
        decimal_digit(n / 100 % 10),
        decimal_digit(n / 10 % 10),
        decimal_digit(n % 10),
    ]
}

/// Whether a string is exactly six ASCII digits.
pub open spec fn is_six_digits(s: Seq<char>) -> bool {
    s.len() == 6 && forall|i: int| 0 <= i < 6 ==> '0' <= #[trigger] s[i] <= '9'
}

/// Relies on the zero-padded width formatting of std's format macro.
#[verifier::external_body]
fn format_six_digits(n: u32) -> (r: String)
    requires
        n < 1000000,
    ensures
        r@ == six_digit_decimal(n),
{
    format!("{:06}", n)
}

/// Relies on rand::random: a uniformly random number. Nothing is
/// promised of the value.
#[verifier::external_body]
fn random_u32() -> u32 {
    rand::random::<u32>()
}

/// A six-digit one-time code. Freshly generated per login attempt that
/// requires a second factor; single-use and short-lived.
pub struct TwoFACode(SecretString);

impl View for TwoFACode {
    type V = Seq<char>;

    closed spec fn view(&self) -> Seq<char> {
        self.0@
    }
}

impl TwoFACode {
    /// Accepts exactly the strings of six ASCII digits.
    pub fn parse(code: SecretString) -> (r: Result<TwoFACode, ValidationError>)
        ensures
            match r {
                Ok(c) => is_six_digits(code@) && c@ == code@,
                Err(e) => !is_six_digits(code@) && e@ == "2FA code is not valid"@,
            },
    {
        if code_is_six_digits(code.expose_secret()) {
            Ok(TwoFACode(code))
        } else {
            Err(ValidationError::new("2FA code is not valid".to_owned()))
        }
    }

    pub fn as_ref(&self) -> (r: &SecretString)
        ensures
            r@ == self@,
    {
        &self.0
    }
}

impl Default for TwoFACode {
    /// A freshly generated random six-digit code.
    fn default() -> (r: Self)
        ensures
            is_six_digits(r@),
    {
        let n = random_u32() % 1000000;
        let code = format_six_digits(n);
        proof {
            lemma_six_digit_decimal_is_six_digits(n);
        }
        TwoFACode(SecretString::new(code))
    }
}

impl Clone for TwoFACode {
    fn clone(&self) -> (r: Self)
        ensures
            r@ == self@,
    {
        TwoFACode(self.0.clone())
    }
}

impl PartialEq for TwoFACode {
    fn eq(&self, other: &Self) -> (r: bool) {
        self.0 == other.0
    }
}

impl vstd::std_specs::cmp::PartialEqSpecImpl for TwoFACode {
    open spec fn obeys_eq_spec() -> bool {
        true
    }

    open spec fn eq_spec(&self, other: &Self) -> bool {
        self@ == other@
    }
}

/// The zero-padded decimal form of a number below one million is six
/// ASCII digits.
proof fn lemma_six_digit_decimal_is_six_digits(n: u32)
    requires
        n < 1000000,
    ensures
        is_six_digits(six_digit_decimal(n)),
{
    assert forall|i: int| 0 <= i < 6 implies '0' <= #[trigger] six_digit_decimal(n)[i]
        <= '9' by {
        assert(n / 100000 % 10 < 10);
        assert(n / 10000 % 10 < 10);
        assert(n / 1000 % 10 < 10);
        assert(n / 100 % 10 < 10);
        assert(n / 10 % 10 < 10);
        assert(n % 10 < 10);
    }
}

/// Whether every one of exactly six characters is an ASCII digit.
fn code_is_six_digits(code: &String) -> (r: bool)
    ensures
        r == is_six_digits(code@),
{
    let s = code.as_str();
    let len = vstd::string::StrSliceExecFns::unicode_len(s);
    if len != 6 {
        return false;
    }
    let mut i: usize = 0;
    while i < 6
        invariant
            0 <= i <= 6,
            s@ == code@,
            s@.len() == 6,
            forall|j: int| 0 <= j < i ==> '0' <= #[trigger] s@[j] <= '9',
        decreases 6 - i,
    {
        let c = vstd::string::StrSliceExecFns::get_char(s, i);
        if c < '0' || c > '9' {
            proof {
                assert(!('0' <= code@[i as int] <= '9'));
                assert(!is_six_digits(code@));
            }
            return false;
        }
        i = i + 1;
    }
    true
}

} // verus!
