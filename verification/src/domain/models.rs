//! Validated value types and the user entity.
mod email;
mod login_attempt_id;
mod password;
mod two_fa_code;
mod user;

pub use email::{email_syntax_ok, email_text_ok, lacks_at_sign, Email};
pub use login_attempt_id::{is_uuid_text, is_v4_uuid_text, uuid_text, LoginAttemptId};
pub use password::{password_text_ok, validate_password, Password, MIN_PASSWORD_CHARS};
pub use two_fa_code::{
    all_below_ten, all_digits, code_of_digits, code_text_ok, digit_char, digit_of, digit_text,
    digits_text, distinct_draws_give_distinct_codes, every_code_can_be_drawn, generate_code,
    is_digit_char, is_valid_code, TwoFACode, CODE_DIGITS,
};
pub use user::{User, UserView};
