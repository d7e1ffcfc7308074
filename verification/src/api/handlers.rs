//! The operations of the service.
//!
//! Each operation comes in two layers. The outer one takes the request as it
//! arrived and parses its fields; the inner one works on validated values.
//! Beside each stands the transition that it carries out, as a function on
//! the mathematical value of the stores.
mod login;
mod logout;
mod signup;
mod verify_2fa;
mod verify_token;

pub use login::{
    asks_second_factor, begin_login, check_login, completes_login, fresh_entry_for,
    handle_2fa, handle_login, handle_no_2fa, login, login_follows, login_plan,
    login_token_names, start_second_factor, step_follows, step_refuses, step_token_names,
    unknown_user_and_wrong_password_alike, LoginPlan, LoginReply, LoginResponse, LoginStep,
    MFA_MESSAGE,
};
pub use logout::{
    codes_after_logout, finish_logout, handle_logout, logout_is_single_use,
    logout_spares_other_tokens, logout_step, logout_withdraws_pending_code, presented,
    revoke_token, subject_of, EndedSession,
};
pub use signup::{
    handle_signup, login_after_signup_is_not_refused, signup, signup_all,
    signup_all_registers, signup_failure_at, signup_input_ok, signup_request_step, signup_step,
    signup_twice_is_rejected, signups_with_distinct_emails_all_succeed,
    signups_with_one_email_succeed_once, SIGNUP_MESSAGE,
};
pub use verify_2fa::{
    completes_second_factor, handle_verify_2fa, second_factor_matches,
    superseded_entry_is_refused, verification_follows, verify_2fa, verify_2fa_input_ok,
};
pub use verify_token::{
    handle_verify_token, issued_token_is_honoured, token_honoured,
    unreadable_or_expired_token_is_invalid, verify_token,
    verify_token_outcome,
};
