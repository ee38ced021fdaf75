use syncnote::admin::{
    admin_new_user_precheck, check_delete_user, check_invite_uses, check_set_admin, check_set_locked,
    clean_display_name,
};

#[test]
fn admin_self_protection() {
    assert_eq!(check_set_locked(1, 1, true), Err("user: cannot lock your own account".to_string()));
    assert_eq!(check_set_locked(1, 1, false), Ok(()));
    assert_eq!(check_set_locked(1, 2, true), Ok(()));
    assert_eq!(check_set_admin(1, 1, false), Err("user: cannot remove your own admin rights".to_string()));
    assert_eq!(check_set_admin(1, 2, false), Ok(()));
    assert_eq!(check_delete_user(1, 1), Err("user: cannot delete your own account".to_string()));
    assert_eq!(check_delete_user(1, 2), Ok(()));
}

#[test]
fn invite_uses() {
    assert_eq!(check_invite_uses(0), Err("uses must be at least 1".to_string()));
    assert_eq!(check_invite_uses(1), Ok(()));
}

#[test]
fn new_users() {
    assert_eq!(admin_new_user_precheck("nope", None), Err("input: a valid email address is required".to_string()));
    assert_eq!(
        admin_new_user_precheck("a@b", Some(" short ".into())),
        Err("input: password must be at least 8 characters".to_string())
    );
    assert_eq!(
        admin_new_user_precheck(" A@B ", Some("  longenough  ".into())),
        Ok(("a@b".to_string(), "longenough".to_string()))
    );
    let (e, pw) = admin_new_user_precheck("a@b", Some("   ".into())).unwrap();
    assert_eq!(e, "a@b");
    assert_eq!(pw.len(), 12);
    let (_, pw) = admin_new_user_precheck("a@b", None).unwrap();
    assert!(pw.chars().all(|c| c.is_ascii_alphanumeric()));
    assert_eq!(clean_display_name(Some("  ".into())), None);
    assert_eq!(clean_display_name(Some(" Zed ".into())), Some("Zed".to_string()));
    assert_eq!(clean_display_name(None), None);
}

#[test]
fn admin_password_minimum_is_eight_bytes() {
    assert_eq!(
        admin_new_user_precheck("a@b", Some(" 1234567 ".into())),
        Err("input: password must be at least 8 characters".to_string())
    );
    assert_eq!(
        admin_new_user_precheck("a@b", Some(" 12345678 ".into())),
        Ok(("a@b".to_string(), "12345678".to_string()))
    );
    assert_eq!(
        admin_new_user_precheck("a@b", Some("éééé".into())),
        Ok(("a@b".to_string(), "éééé".to_string()))
    );
}
