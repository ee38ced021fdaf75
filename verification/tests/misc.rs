use syncnote::mailer::build_email;
use syncnote::db::{is_tolerated_migration_error, migration_names, parse_bootstrap_admin, should_bootstrap_admin};
use syncnote::mailer::{smtp_plan, SmtpPlan};
use syncnote::passkeys::{
    check_has_passkeys, check_passkey_account, check_registration_owner, listed_label, passkey_label,
    user_handle, user_id_from_handle,
};

fn s(x: &str) -> Option<String> {
    Some(x.to_string())
}

#[test]
fn smtp_plans() {
    assert_eq!(smtp_plan(None, None, s("u"), s("p"), None, None), None);
    assert_eq!(smtp_plan(s("h"), None, s(""), s("p"), None, None), None);
    assert_eq!(
        smtp_plan(s("smtp.x"), None, s("u"), s("p"), None, None),
        Some(SmtpPlan {
            server: "smtp.x".into(),
            port: 465,
            username: "u".into(),
            password: "p".into(),
            from_mailbox: "SyncNote <support@apich.top>".into(),
            implicit_tls: true,
        })
    );
    let p = smtp_plan(s("smtp.x"), s("587"), s("u"), s("p"), s("me@x"), s("Me")).unwrap();
    assert_eq!(p.port, 587);
    assert!(!p.implicit_tls);
    assert_eq!(p.from_mailbox, "Me <me@x>");
    assert_eq!(smtp_plan(s("smtp.x"), s("abc"), s("u"), s("p"), None, None).unwrap().port, 465);
}

#[test]
fn bootstrap_admin() {
    assert_eq!(parse_bootstrap_admin("a@b.c:pw:x"), Some(("a@b.c".to_string(), "pw:x".to_string())));
    assert_eq!(parse_bootstrap_admin("nocolon"), None);
    assert!(should_bootstrap_admin(0));
    assert!(!should_bootstrap_admin(1));
}

#[test]
fn migrations() {
    assert_eq!(migration_names().len(), 7);
    assert_eq!(migration_names()[0], "0001_init");
    assert!(is_tolerated_migration_error("duplicate column name: locked"));
    assert!(is_tolerated_migration_error("table users already exists"));
    assert!(!is_tolerated_migration_error("syntax error"));
}

#[test]
fn passkeys() {
    assert_eq!(passkey_label("  "), "Passkey");
    assert_eq!(passkey_label(" Laptop "), "Laptop");
    assert_eq!(listed_label(None), "Passkey");
    assert_eq!(listed_label(s("Phone")), "Phone");
    for id in [0i64, 1, -1, i64::MAX, i64::MIN] {
        assert_eq!(user_id_from_handle(user_handle(id)), id);
    }
    assert_eq!(user_handle(5), 5u128);
    assert_eq!(check_passkey_account(Some(false)), Ok(()));
    assert_eq!(check_passkey_account(Some(true)), Err("auth: this account has been locked".to_string()));
    assert_eq!(check_passkey_account(None), Err("auth: this account has been locked".to_string()));
    assert_eq!(check_registration_owner(1, 2), Err("session: user mismatch".to_string()));
    assert_eq!(check_registration_owner(2, 2), Ok(()));
    assert_eq!(check_has_passkeys(0), Err("auth: no passkeys registered for that account".to_string()));
    assert_eq!(check_has_passkeys(1), Ok(()));
}

#[test]
fn building_mails() {
    assert!(build_email("SyncNote <noreply@example.com>", "ann@example.com", "s", "t", Some("<p>t</p>")).is_ok());
    assert!(build_email("noreply@example.com", "ann@example.com", "s", "t", None).is_ok());
    let err = build_email("not a mailbox", "ann@example.com", "s", "t", None).err().unwrap();
    assert!(err.starts_with("Invalid FROM mailbox 'not a mailbox': "), "{err}");
    let err = build_email("noreply@example.com", "nobody", "s", "t", None).err().unwrap();
    assert!(err.starts_with("Invalid TO email 'nobody': "), "{err}");
}
