use syncnote::auth::{
    change_password_precheck, check_signup_invite, email_taken, invite_rejection, is_email,
    login_decision, login_precheck, normalize_display_name, normalize_email, register_precheck,
    require_admin, require_user, session_user, signup_refusal, AccessError, InviteCheck, LoginRow, LoginStep,
    UserRow, SESSION_USER_ID,
};
use syncnote::models::{AuthOutcome, AuthUser};

fn fail(msg: &str) -> AuthOutcome {
    AuthOutcome { ok: false, message: Some(msg.to_string()) }
}

fn user(admin: bool) -> AuthUser {
    AuthUser { id: 4, email: "a@b.c".into(), display_name: None, is_admin: admin }
}

#[test]
fn email_shape() {
    assert!(is_email("a@b.c"));
    assert!(!is_email("@b.c"));
    assert!(!is_email("a@"));
    assert!(!is_email("a@bc"));
    assert!(!is_email("abc"));
    assert!(is_email("a@b@c.d"));
    assert!(!is_email(""));
}

#[test]
fn emails_are_trimmed_and_lowercased() {
    assert_eq!(normalize_email("  Alice@Example.COM "), "alice@example.com");
}

#[test]
fn locked_accounts_are_signed_out() {
    let row = UserRow { id: 1, email: "x@y.z".into(), display_name: Some("X".into()), is_admin: true, locked: true };
    assert_eq!(session_user(Some(row.clone())), None);
    let open = UserRow { locked: false, ..row };
    assert_eq!(
        session_user(Some(open)),
        Some(AuthUser { id: 1, email: "x@y.z".into(), display_name: Some("X".into()), is_admin: true })
    );
    assert_eq!(session_user(None), None);
}

#[test]
fn user_and_admin_gates() {
    assert_eq!(require_user(None), Err(AccessError::NotSignedIn));
    assert_eq!(require_user(Some(user(false))), Ok(user(false)));
    assert_eq!(require_admin(Some(user(false))), Err(AccessError::AdminRequired));
    assert_eq!(require_admin(Some(user(true))), Ok(user(true)));
    assert_eq!(require_admin(None), Err(AccessError::NotSignedIn));
    assert_eq!(AccessError::NotSignedIn.message(), "not signed in");
    assert_eq!(AccessError::AdminRequired.message(), "admin access required");
}

#[test]
fn session_key() {
    assert_eq!(SESSION_USER_ID, "uid");
}

#[test]
fn login_precheck_rejects_bad_input() {
    assert_eq!(login_precheck("nope", "pw"), Err(fail("Invalid email or password")));
    assert_eq!(login_precheck("a@b.c", ""), Err(fail("Invalid email or password")));
    assert_eq!(login_precheck(" A@B.C ", "pw"), Ok("a@b.c".to_string()));
}

#[test]
fn login_decisions() {
    let row = LoginRow { user_id: 9, locked: false };
    let locked = LoginRow { user_id: 9, locked: true };
    assert_eq!(login_decision(None, true), LoginStep::Reject(fail("Wrong email or password")));
    assert_eq!(login_decision(Some(row), false), LoginStep::Reject(fail("Wrong email or password")));
    assert_eq!(login_decision(Some(locked), false), LoginStep::Reject(fail("Wrong email or password")));
    assert_eq!(login_decision(Some(locked), true), LoginStep::Reject(fail("This account has been locked")));
    assert_eq!(login_decision(Some(row), true), LoginStep::SignIn(9));
}

#[test]
fn register_prechecks() {
    assert_eq!(register_precheck("bad", "longpassword", "c"), Err(fail("Invalid email address")));
    assert_eq!(register_precheck("a@b.c", "short", "c"), Err(fail("Password must be at least 8 characters")));
    assert_eq!(register_precheck("a@b.c", "longpassword", "   "), Err(fail("Invite code is required")));
    assert_eq!(
        register_precheck(" A@B.C", "longpassword", " code1 "),
        Ok(("a@b.c".to_string(), "code1".to_string()))
    );
}

#[test]
fn password_length_counts_bytes() {
    assert!(register_precheck("a@b.c", "ééééé", "c").is_ok());
    assert!(register_precheck("a@b.c", "éééé", "c").is_ok());
    assert!(register_precheck("a@b.c", "ééé", "c").is_err());
}

#[test]
fn signup_invite_states() {
    assert_eq!(check_signup_invite(0, &None, ""), InviteCheck::NoUsesLeft);
    assert_eq!(check_signup_invite(-1, &None, ""), InviteCheck::NoUsesLeft);
    assert_eq!(check_signup_invite(1, &None, "2030-01-01 00:00:00"), InviteCheck::Usable);
    assert_eq!(
        check_signup_invite(1, &Some("2024-01-01 00:00:00".into()), "2025-01-01 00:00:00"),
        InviteCheck::Expired
    );
    assert_eq!(
        check_signup_invite(1, &Some("2025-01-01 00:00:00".into()), "2025-01-01 00:00:00"),
        InviteCheck::Usable
    );
}

#[test]
fn invite_rejection_messages() {
    assert_eq!(invite_rejection(None), Some(fail("Invalid invite code")));
    assert_eq!(invite_rejection(Some(InviteCheck::NoUsesLeft)), Some(fail("That invite code has no uses left")));
    assert_eq!(invite_rejection(Some(InviteCheck::Expired)), Some(fail("That invite code has expired")));
    assert_eq!(invite_rejection(Some(InviteCheck::Usable)), None);
    assert_eq!(email_taken(), fail("That email is already registered"));
}

#[test]
fn account_settings() {
    assert_eq!(change_password_precheck("1234567"), Some(fail("New password must be at least 8 characters")));
    assert_eq!(change_password_precheck("12345678"), None);
    assert_eq!(normalize_display_name("   "), None);
    assert_eq!(normalize_display_name("  Bo "), Some("Bo".to_string()));
}

#[test]
fn signup_refusals_in_order() {
    let msg = |r: Option<syncnote::models::AuthOutcome>| r.and_then(|o| o.message);
    assert_eq!(msg(signup_refusal(None, true)), Some("Invalid invite code".to_string()));
    assert_eq!(msg(signup_refusal(Some(InviteCheck::Expired), true)), Some("That invite code has expired".to_string()));
    assert_eq!(msg(signup_refusal(Some(InviteCheck::Usable), true)), Some("That email is already registered".to_string()));
    assert_eq!(signup_refusal(Some(InviteCheck::Usable), false), None);
}
