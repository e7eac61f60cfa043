//! The password policy: what a new password must contain, in which order the
//! rules are checked, and the message shown for each violation.
use vstd::prelude::*;
use crate::text::chars_of;

verus! {

/// The reason a proposed password is refused.
#[derive(Debug, Clone, Copy, PartialEq, Eq, Structural)]
pub enum PasswordValidationError {
    TooShort,
    NoUppercase,
    NoLowercase,
    NoDigit,
    NoSpecialChar,
    Mismatch,
}

/// The fewest characters a password may have.
pub const MIN_PASSWORD_CHARS: usize = 8;

/// Whether `c` has the Unicode `Uppercase` property (what `char::is_uppercase` returns).
pub uninterp spec fn char_is_uppercase(c: char) -> bool;

/// Whether `c` has the Unicode `Lowercase` property (what `char::is_lowercase` returns).
pub uninterp spec fn char_is_lowercase(c: char) -> bool;

/// Whether `c` is in a Unicode numeric category (what `char::is_numeric` returns).
pub uninterp spec fn char_is_numeric(c: char) -> bool;

/// Whether `c` is alphabetic or numeric in Unicode (what `char::is_alphanumeric` returns).
pub uninterp spec fn char_is_alphanumeric(c: char) -> bool;

/// `c` is an ASCII character.
pub open spec fn is_ascii_char(c: char) -> bool {
    (c as u32) < 0x80
}

/// `c` is uppercase: among ASCII characters exactly `A` to `Z`.
pub open spec fn is_upper(c: char) -> bool {
    if is_ascii_char(c) {
        'A' <= c <= 'Z'
    } else {
        char_is_uppercase(c)
    }
}

/// `c` is lowercase: among ASCII characters exactly `a` to `z`.
pub open spec fn is_lower(c: char) -> bool {
    if is_ascii_char(c) {
        'a' <= c <= 'z'
    } else {
        char_is_lowercase(c)
    }
}

/// `c` is numeric: among ASCII characters exactly `0` to `9`.
pub open spec fn is_number(c: char) -> bool {
    if is_ascii_char(c) {
        '0' <= c <= '9'
    } else {
        char_is_numeric(c)
    }
}

/// `c` is alphanumeric: among ASCII characters exactly the letters and digits.
pub open spec fn is_letter_or_number(c: char) -> bool {
    if is_ascii_char(c) {
        ('A' <= c <= 'Z') || ('a' <= c <= 'z') || ('0' <= c <= '9')
    } else {
        char_is_alphanumeric(c)
    }
}

/// `char::is_uppercase`: the Unicode `Uppercase` property, which among
/// ASCII characters holds of `A` to `Z` only; beyond ASCII it is named
/// `char_is_uppercase`.
#[verifier::external_body]
fn is_uppercase(c: char) -> (res: bool)
    ensures
        res == if is_ascii_char(c) {
            'A' <= c <= 'Z'
        } else {
            char_is_uppercase(c)
        },
{
    c.is_uppercase()
}

/// `char::is_lowercase`: the Unicode `Lowercase` property, which among
/// ASCII characters holds of `a` to `z` only; beyond ASCII it is named
/// `char_is_lowercase`.
#[verifier::external_body]
fn is_lowercase(c: char) -> (res: bool)
    ensures
        res == if is_ascii_char(c) {
            'a' <= c <= 'z'
        } else {
            char_is_lowercase(c)
        },
{
    c.is_lowercase()
}

/// `char::is_numeric`: the Unicode numeric categories, which among ASCII
/// characters hold of `0` to `9` only; beyond ASCII this is named
/// `char_is_numeric`.
#[verifier::external_body]
fn is_numeric(c: char) -> (res: bool)
    ensures
        res == if is_ascii_char(c) {
            '0' <= c <= '9'
        } else {
            char_is_numeric(c)
        },
{
    c.is_numeric()
}

/// `char::is_alphanumeric`: alphabetic or numeric, which among ASCII
/// characters holds of the letters and digits only; beyond ASCII this is
/// named `char_is_alphanumeric`.
#[verifier::external_body]
fn is_alphanumeric(c: char) -> (res: bool)
    ensures
        res == if is_ascii_char(c) {
            ('A' <= c <= 'Z') || ('a' <= c <= 'z') || ('0' <= c <= '9')
        } else {
            char_is_alphanumeric(c)
        },
{
    c.is_alphanumeric()
}

/// Some character of `s` is uppercase.
pub open spec fn has_uppercase(s: Seq<char>) -> bool {
    exists|i: int| 0 <= i < s.len() && is_upper(#[trigger] s[i])
}

/// Some character of `s` is lowercase.
pub open spec fn has_lowercase(s: Seq<char>) -> bool {
    exists|i: int| 0 <= i < s.len() && is_lower(#[trigger] s[i])
}

/// Some character of `s` is numeric.
pub open spec fn has_digit(s: Seq<char>) -> bool {
    exists|i: int| 0 <= i < s.len() && is_number(#[trigger] s[i])
}

/// Some character of `s` is neither alphabetic nor numeric.
pub open spec fn has_special(s: Seq<char>) -> bool {
    exists|i: int| 0 <= i < s.len() && !is_letter_or_number(#[trigger] s[i])
}

/// The policy: at least eight characters, with an uppercase letter, a
/// lowercase letter, a number and a special character.
pub open spec fn meets_policy(s: Seq<char>) -> bool {
    &&& s.len() >= MIN_PASSWORD_CHARS
    &&& has_uppercase(s)
    &&& has_lowercase(s)
    &&& has_digit(s)
    &&& has_special(s)
}

/// The outcome of checking `s`: the first rule it breaks, in the order
/// length, uppercase, lowercase, digit, special character.
pub open spec fn policy_verdict(s: Seq<char>) -> Result<(), PasswordValidationError> {
    if s.len() < MIN_PASSWORD_CHARS {
        Err(PasswordValidationError::TooShort)
    } else if !has_uppercase(s) {
        Err(PasswordValidationError::NoUppercase)
    } else if !has_lowercase(s) {
        Err(PasswordValidationError::NoLowercase)
    } else if !has_digit(s) {
        Err(PasswordValidationError::NoDigit)
    } else if !has_special(s) {
        Err(PasswordValidationError::NoSpecialChar)
    } else {
        Ok(())
    }
}

/// Checks `password` against the policy and reports the first rule it breaks.
pub fn validate_password(password: &str) -> (res: Result<(), PasswordValidationError>)
    ensures
        res == policy_verdict(password@),
{
    let chars = chars_of(password);
    let n = chars.len();
    let mut upper = false;
    let mut lower = false;
    let mut digit = false;
    let mut special = false;
    let mut i: usize = 0;
    while i < n
        invariant
            n == chars@.len(),
            chars@ == password@,
            i <= n,
            upper == exists|j: int| 0 <= j < i && is_upper(#[trigger] chars@[j]),
            lower == exists|j: int| 0 <= j < i && is_lower(#[trigger] chars@[j]),
            digit == exists|j: int| 0 <= j < i && is_number(#[trigger] chars@[j]),
            special == exists|j: int| 0 <= j < i && !is_letter_or_number(#[trigger] chars@[j]),
        decreases n - i,
    {
        let c = chars[i];
        if is_uppercase(c) {
            upper = true;
        }
        if is_lowercase(c) {
            lower = true;
        }
        if is_numeric(c) {
            digit = true;
        }
        if !is_alphanumeric(c) {
            special = true;
        }
        i = i + 1;
    }
    if n < MIN_PASSWORD_CHARS {
        return Err(PasswordValidationError::TooShort);
    }
    if !upper {
        return Err(PasswordValidationError::NoUppercase);
    }
    if !lower {
        return Err(PasswordValidationError::NoLowercase);
    }
    if !digit {
        return Err(PasswordValidationError::NoDigit);
    }
    if !special {
        return Err(PasswordValidationError::NoSpecialChar);
    }
    Ok(())
}


/// The user-facing text of each error.
pub open spec fn error_text(e: PasswordValidationError) -> Seq<char> {
    match e {
        PasswordValidationError::TooShort => "La contraseña debe tener al menos 8 caracteres"@,
        PasswordValidationError::NoUppercase => "La contraseña debe contener al menos una mayúscula"@,
        PasswordValidationError::NoLowercase => "La contraseña debe contener al menos una minúscula"@,
        PasswordValidationError::NoDigit => "La contraseña debe contener al menos un número"@,
        PasswordValidationError::NoSpecialChar => "La contraseña debe contener al menos un carácter especial"@,
        PasswordValidationError::Mismatch => "Las contraseñas no coinciden"@,
    }
}

impl PasswordValidationError {
    /// The message shown to the user for this error.
    pub fn message(&self) -> (res: String)
        ensures
            res@ == error_text(*self),
    {
        match self {
            PasswordValidationError::TooShort => String::from_str(
                "La contraseña debe tener al menos 8 caracteres",
            ),
            PasswordValidationError::NoUppercase => String::from_str(
                "La contraseña debe contener al menos una mayúscula",
            ),
            PasswordValidationError::NoLowercase => String::from_str(
                "La contraseña debe contener al menos una minúscula",
            ),
            PasswordValidationError::NoDigit => String::from_str(
                "La contraseña debe contener al menos un número",
            ),
            PasswordValidationError::NoSpecialChar => String::from_str(
                "La contraseña debe contener al menos un carácter especial",
            ),
            PasswordValidationError::Mismatch => String::from_str("Las contraseñas no coinciden"),
        }
    }
}

/// A password is accepted exactly when it meets every rule of the policy,
/// and a refusal is never reported as a mismatch of the two entries.
pub proof fn lemma_accepted_iff_policy(s: Seq<char>)
    ensures
        policy_verdict(s) is Ok <==> meets_policy(s),
        policy_verdict(s) != Err::<(), PasswordValidationError>(PasswordValidationError::Mismatch),
{
}

/// Each rule is reported only when every rule before it holds: a refusal for
/// a missing special character means the password is long enough and has an
/// uppercase letter, a lowercase letter and a number, and so on down the list.
pub proof fn lemma_first_broken_rule(s: Seq<char>)
    ensures
        policy_verdict(s) == Err::<(), PasswordValidationError>(PasswordValidationError::TooShort)
            <==> s.len() < MIN_PASSWORD_CHARS,
        policy_verdict(s) == Err::<(), PasswordValidationError>(PasswordValidationError::NoUppercase)
            <==> s.len() >= MIN_PASSWORD_CHARS && !has_uppercase(s),
        policy_verdict(s) == Err::<(), PasswordValidationError>(PasswordValidationError::NoLowercase)
            <==> s.len() >= MIN_PASSWORD_CHARS && has_uppercase(s) && !has_lowercase(s),
        policy_verdict(s) == Err::<(), PasswordValidationError>(PasswordValidationError::NoDigit)
            <==> s.len() >= MIN_PASSWORD_CHARS && has_uppercase(s) && has_lowercase(s) && !has_digit(s),
        policy_verdict(s) == Err::<(), PasswordValidationError>(PasswordValidationError::NoSpecialChar)
            <==> s.len() >= MIN_PASSWORD_CHARS && has_uppercase(s) && has_lowercase(s) && has_digit(s)
            && !has_special(s),
{
}


/// The policy in terms of the characters themselves: a password is refused
/// as too short exactly when it has fewer than eight characters, and
/// otherwise for the first kind of character it lacks altogether, in the
/// order uppercase, lowercase, number, non-alphanumeric. A password is
/// accepted exactly when it is long enough and has a character of each kind;
/// in particular any character that is not a letter or a number (such as
/// `@`, `_` or a space) counts as a special character.
pub proof fn lemma_verdict_by_characters(s: Seq<char>)
    ensures
        (policy_verdict(s) == Err::<(), PasswordValidationError>(PasswordValidationError::TooShort))
            <==> s.len() < 8,
        (policy_verdict(s) == Err::<(), PasswordValidationError>(
            PasswordValidationError::NoUppercase,
        )) <==> (s.len() >= 8 && forall|i: int| 0 <= i < s.len() ==> !is_upper(#[trigger] s[i])),
        (policy_verdict(s) == Err::<(), PasswordValidationError>(
            PasswordValidationError::NoLowercase,
        )) <==> (s.len() >= 8 && (exists|i: int| 0 <= i < s.len() && is_upper(#[trigger] s[i]))
            && forall|i: int| 0 <= i < s.len() ==> !is_lower(#[trigger] s[i])),
        (policy_verdict(s) == Err::<(), PasswordValidationError>(PasswordValidationError::NoDigit))
            <==> (s.len() >= 8 && (exists|i: int| 0 <= i < s.len() && is_upper(#[trigger] s[i]))
            && (exists|i: int| 0 <= i < s.len() && is_lower(#[trigger] s[i])) && forall|i: int|
            0 <= i < s.len() ==> !is_number(#[trigger] s[i])),
        (policy_verdict(s) == Err::<(), PasswordValidationError>(
            PasswordValidationError::NoSpecialChar,
        )) <==> (s.len() >= 8 && (exists|i: int| 0 <= i < s.len() && is_upper(#[trigger] s[i]))
            && (exists|i: int| 0 <= i < s.len() && is_lower(#[trigger] s[i])) && (exists|i: int|
            0 <= i < s.len() && is_number(#[trigger] s[i])) && forall|i: int|
            0 <= i < s.len() ==> is_letter_or_number(#[trigger] s[i])),
        (policy_verdict(s) is Ok) <==> (s.len() >= 8 && (exists|i: int|
            0 <= i < s.len() && is_upper(#[trigger] s[i])) && (exists|i: int|
            0 <= i < s.len() && is_lower(#[trigger] s[i])) && (exists|i: int|
            0 <= i < s.len() && is_number(#[trigger] s[i])) && (exists|i: int|
            0 <= i < s.len() && !is_letter_or_number(#[trigger] s[i]))),
{
}

/// A long-enough password with an uppercase letter, a lowercase letter and
/// a number is accepted as soon as one of its characters is not a letter or
/// a number, whichever character that is.
pub proof fn lemma_any_non_alphanumeric_is_special(s: Seq<char>, k: int)
    requires
        s.len() >= 8,
        exists|i: int| 0 <= i < s.len() && is_upper(#[trigger] s[i]),
        exists|i: int| 0 <= i < s.len() && is_lower(#[trigger] s[i]),
        exists|i: int| 0 <= i < s.len() && is_number(#[trigger] s[i]),
        0 <= k < s.len(),
        !is_letter_or_number(s[k]),
    ensures
        policy_verdict(s) is Ok,
{
    assert(!is_letter_or_number(s[k]));
}

} // verus!
