use syncnote::models::{AttachmentInfo, AuthOutcome};
use syncnote::ui::{
    filter_files, form_error, invite_details, settings_feedback, share_link_expiry, share_link_usage,
};

fn file(id: i64, name: &str) -> AttachmentInfo {
    AttachmentInfo {
        id,
        filename: name.into(),
        content_type: "text/plain".into(),
        byte_size: 3,
        created_at: "t".into(),
        scope: "library".into(),
        scope_title: None,
        scope_link: None,
        url: format!("/attachments/{id}"),
        is_owner: true,
        shared_by_email: None,
    }
}

#[test]
fn searching_files_by_name() {
    let files = vec![file(1, "Report.PDF"), file(2, "photo.png"), file(3, "old report.txt")];
    let ids = |v: Vec<AttachmentInfo>| v.into_iter().map(|f| f.id).collect::<Vec<_>>();
    assert_eq!(ids(filter_files(files.clone(), "  REPORT ")), vec![1, 3]);
    assert_eq!(ids(filter_files(files.clone(), "   ")), vec![1, 2, 3]);
    assert_eq!(ids(filter_files(files, "zip")), Vec::<i64>::new());
}

#[test]
fn download_link_texts() {
    assert_eq!(share_link_usage(2, Some(5)), "2 of 5 downloads used");
    assert_eq!(share_link_usage(7, None), "7 downloads, unlimited");
    assert_eq!(share_link_expiry(&None), "never expires");
    assert_eq!(share_link_expiry(&Some("2030-01-01 00:00:00".into())), "2030-01-01 00:00:00");
}

#[test]
fn sign_up_invite_details() {
    assert_eq!(invite_details(&Some("2030-01-01".into()), &Some("design team".into())), " · expires 2030-01-01 · design team");
    assert_eq!(invite_details(&None, &Some("x".into())), " · x");
    assert_eq!(invite_details(&None, &None), "");
}

#[test]
fn form_feedback() {
    let refused = AuthOutcome { ok: false, message: Some("Wrong email or password".into()) };
    let bare = AuthOutcome { ok: false, message: None };
    let ok = AuthOutcome { ok: true, message: None };
    assert_eq!(form_error(&Some(Ok(refused.clone())), "Sign in failed"), "Wrong email or password");
    assert_eq!(form_error(&Some(Ok(bare.clone())), "Sign in failed"), "Sign in failed");
    assert_eq!(form_error(&Some(Err("boom".into())), "Sign in failed"), "Server error, please try again");
    assert_eq!(form_error(&Some(Ok(ok.clone())), "Sign in failed"), "");
    assert_eq!(form_error(&None, "Sign in failed"), "");

    assert_eq!(settings_feedback(&Some(Ok(ok)), "Profile updated.", "Update failed"), Some(("Profile updated.".to_string(), false)));
    assert_eq!(settings_feedback(&Some(Ok(bare)), "Profile updated.", "Update failed"), Some(("Update failed".to_string(), true)));
    assert_eq!(settings_feedback(&Some(Ok(refused)), "x", "y"), Some(("Wrong email or password".to_string(), true)));
    assert_eq!(settings_feedback(&Some(Err("e".into())), "x", "y"), Some(("Server error, please try again".to_string(), true)));
    assert_eq!(settings_feedback(&None, "x", "y"), None);
}
