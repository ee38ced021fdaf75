use syncnote::files::{
    attachment_url_of, can_download, can_read, can_write, check_max_downloads, content_disposition,
    file_share_check, file_share_url, parse_scope, row_to_attachment_info, upload_forbidden,
    upload_file_meta, upload_precheck, AttachmentRow, Scope, ScopeAccess, UploadRefusal, UploadTarget, MAX_UPLOAD_BYTES,
};
use syncnote::roles::MemberRole;

fn access(owns_note: bool, page_role: Option<MemberRole>) -> ScopeAccess {
    ScopeAccess { owns_note, page_role }
}

fn refused(status: u16, m: &str) -> UploadRefusal {
    UploadRefusal { status, message: m.to_string() }
}

#[test]
fn scopes() {
    assert_eq!(parse_scope("note"), Scope::Note);
    assert_eq!(parse_scope("shared_page"), Scope::SharedPage);
    assert_eq!(parse_scope("library"), Scope::Library);
    assert_eq!(parse_scope("Note"), Scope::Other);
}

#[test]
fn write_and_read_rights() {
    assert!(can_write(Scope::Note, access(true, None)));
    assert!(!can_write(Scope::Note, access(false, Some(MemberRole::Owner))));
    assert!(can_write(Scope::SharedPage, access(false, Some(MemberRole::Editor))));
    assert!(!can_write(Scope::SharedPage, access(false, Some(MemberRole::Viewer))));
    assert!(can_read(Scope::SharedPage, access(false, Some(MemberRole::Viewer))));
    assert!(!can_read(Scope::SharedPage, access(true, None)));
    assert!(!can_write(Scope::Library, access(true, Some(MemberRole::Owner))));
    assert!(!can_read(Scope::Other, access(true, Some(MemberRole::Owner))));
}

#[test]
fn library_files_only_for_owner() {
    assert!(can_download(Scope::Library, 3, 3, access(false, None)));
    assert!(!can_download(Scope::Library, 3, 4, access(true, Some(MemberRole::Owner))));
    assert!(can_download(Scope::Note, 3, 4, access(true, None)));
}

#[test]
fn upload_prechecks() {
    let lib = Some("library".to_string());
    let note = Some("note".to_string());
    assert_eq!(upload_precheck(&None, Some(1), Some(5)), Err(refused(400, "missing scope or file")));
    assert_eq!(upload_precheck(&note, Some(1), None), Err(refused(400, "missing scope or file")));
    assert_eq!(upload_precheck(&lib, None, Some(MAX_UPLOAD_BYTES + 1)), Err(refused(413, "file too large (max 10MB)")));
    assert_eq!(upload_precheck(&lib, None, Some(MAX_UPLOAD_BYTES)), Ok(UploadTarget::Library));
    assert_eq!(upload_precheck(&note, None, Some(3)), Err(refused(400, "missing scope_id")));
    assert_eq!(upload_precheck(&note, Some(8), Some(3)), Ok(UploadTarget::Scoped(Scope::Note, 8)));
    assert_eq!(upload_forbidden(), refused(403, "not permitted"));
    assert_eq!(MAX_UPLOAD_BYTES, 10 * 1024 * 1024);
}

#[test]
fn urls_and_headers() {
    assert_eq!(attachment_url_of(12), "/attachments/12");
    assert_eq!(content_disposition("a b.pdf"), "inline; filename=\"a b.pdf\"");
    assert_eq!(file_share_url("tok"), "/share/tok");
}

fn row(scope: &str, scope_id: Option<i64>, title: Option<&str>) -> AttachmentRow {
    AttachmentRow {
        id: 5,
        filename: "f.png".into(),
        content_type: "image/png".into(),
        byte_size: 10,
        created_at: "t".into(),
        scope: scope.into(),
        scope_id,
        scope_title: title.map(|t| t.to_string()),
        is_owner: true,
        shared_by_email: None,
    }
}

#[test]
fn attachment_rows() {
    let i = row_to_attachment_info(row("note", Some(3), Some("N")));
    assert_eq!(i.scope_link.as_deref(), Some("/app/note/3"));
    assert_eq!(i.url, "/attachments/5");
    let i = row_to_attachment_info(row("shared_page", Some(4), Some("P")));
    assert_eq!(i.scope_link.as_deref(), Some("/app/shared/4"));
    assert_eq!(row_to_attachment_info(row("note", Some(3), None)).scope_link, None);
    assert_eq!(row_to_attachment_info(row("library", None, None)).scope_link, None);
}

#[test]
fn file_sharing_checks() {
    assert_eq!(file_share_check(1, None, false), Err("user: no account with that email".to_string()));
    assert_eq!(file_share_check(1, Some(1), false), Err("user: you already own this file".to_string()));
    assert_eq!(file_share_check(1, Some(2), true), Err("user: already shared with that user".to_string()));
    assert_eq!(file_share_check(1, Some(2), false), Ok(2));
    assert_eq!(check_max_downloads(Some(0)), Err("input: max downloads must be at least 1".to_string()));
    assert_eq!(check_max_downloads(Some(1)), Ok(()));
    assert_eq!(check_max_downloads(None), Ok(()));
}

#[test]
fn upload_names_and_types() {
    assert_eq!(upload_file_meta(None, None), ("file".to_string(), "application/octet-stream".to_string()));
    assert_eq!(upload_file_meta(Some("a.png"), Some("image/png")), ("a.png".to_string(), "image/png".to_string()));
}
