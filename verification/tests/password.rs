use clavis::password::{validate_password, PasswordValidationError};

#[test]
fn short_password_is_refused_first() {
    assert_eq!(validate_password("Ab1!"), Err(PasswordValidationError::TooShort));
    assert_eq!(validate_password(""), Err(PasswordValidationError::TooShort));
    assert_eq!(validate_password("abc"), Err(PasswordValidationError::TooShort));
}

#[test]
fn missing_uppercase_is_reported() {
    assert_eq!(validate_password("abcdefg1!"), Err(PasswordValidationError::NoUppercase));
}

#[test]
fn missing_lowercase_is_reported() {
    assert_eq!(validate_password("ABCDEFG1!"), Err(PasswordValidationError::NoLowercase));
}

#[test]
fn missing_digit_is_reported() {
    assert_eq!(validate_password("Abcdefgh!"), Err(PasswordValidationError::NoDigit));
}

#[test]
fn missing_special_character_is_reported() {
    assert_eq!(validate_password("Abcdefg12"), Err(PasswordValidationError::NoSpecialChar));
    assert_eq!(validate_password("Abc def1"), Ok(()));
}

#[test]
fn exactly_eight_characters_is_enough() {
    assert_eq!(validate_password("Abcdef1!"), Ok(()));
    assert_eq!(validate_password("Abcde1!"), Err(PasswordValidationError::TooShort));
}

#[test]
fn rules_are_checked_in_order() {
    // Breaks every content rule: the uppercase rule is reported.
    assert_eq!(validate_password("        "), Err(PasswordValidationError::NoUppercase));
    // Lowercase only: the uppercase rule is reported before the others.
    assert_eq!(validate_password("abcdefgh"), Err(PasswordValidationError::NoUppercase));
    // Upper and lower only: the digit rule comes before the special character.
    assert_eq!(validate_password("Abcdefgh"), Err(PasswordValidationError::NoDigit));
}

#[test]
fn non_ascii_letters_count_as_letters_and_characters() {
    assert_eq!(validate_password("Ñandú12!"), Ok(()));
    assert_eq!(validate_password("ÑANDÚ12!"), Err(PasswordValidationError::NoLowercase));
    // Seven characters (nine bytes) are too few.
    assert_eq!(validate_password("Ñandú1!"), Err(PasswordValidationError::TooShort));
    // Non-Latin digits are numbers.
    assert_eq!(validate_password("Abcdefg١!"), Ok(()));
}

#[test]
fn error_messages() {
    assert_eq!(
        PasswordValidationError::TooShort.message(),
        "La contraseña debe tener al menos 8 caracteres"
    );
    assert_eq!(
        PasswordValidationError::NoUppercase.message(),
        "La contraseña debe contener al menos una mayúscula"
    );
    assert_eq!(
        PasswordValidationError::NoLowercase.message(),
        "La contraseña debe contener al menos una minúscula"
    );
    assert_eq!(
        PasswordValidationError::NoDigit.message(),
        "La contraseña debe contener al menos un número"
    );
    assert_eq!(
        PasswordValidationError::NoSpecialChar.message(),
        "La contraseña debe contener al menos un carácter especial"
    );
    assert_eq!(PasswordValidationError::Mismatch.message(), "Las contraseñas no coinciden");
}
