use syncnote::models::{InvitePreview, SharedPage, SharedPageMember};
use syncnote::pages::{
    check_invite_creator, check_invite_expiry, check_invite_role, delete_refused, invite_preview,
    may_rename, member_from_row, page_from_row, parse_role, remove_member_check, rename_refused,
};
use syncnote::roles::MemberRole;

#[test]
fn stored_roles() {
    assert_eq!(parse_role("editor"), Ok(MemberRole::Editor));
    assert_eq!(parse_role("boss"), Err("bad role in db".to_string()));
    assert_eq!(
        page_from_row(1, "T".into(), "B".into(), 3, "viewer", "now".into()),
        Ok(SharedPage { id: 1, title: "T".into(), body: "B".into(), version: 3, my_role: MemberRole::Viewer, updated_at: "now".into() })
    );
    assert!(page_from_row(1, "T".into(), "B".into(), 3, "x", "now".into()).is_err());
    assert_eq!(
        member_from_row(2, "e@x.y".into(), "owner"),
        Ok(SharedPageMember { user_id: 2, email: "e@x.y".into(), role: MemberRole::Owner })
    );
}

#[test]
fn rename_rights() {
    assert!(may_rename(Some(MemberRole::Owner)));
    assert!(may_rename(Some(MemberRole::Editor)));
    assert!(!may_rename(Some(MemberRole::Viewer)));
    assert!(!may_rename(None));
    assert_eq!(rename_refused(), "page not found or not permitted");
    assert_eq!(delete_refused(), "page not found or not owner");
}

#[test]
fn invites() {
    assert_eq!(check_invite_role("editor"), Ok(()));
    assert_eq!(check_invite_role("viewer"), Ok(()));
    assert_eq!(check_invite_role("owner"), Err("role must be editor or viewer".to_string()));
    assert_eq!(check_invite_creator(false), Err("only the owner can create invites".to_string()));
    assert_eq!(check_invite_creator(true), Ok(()));
    assert_eq!(check_invite_expiry(&None, "2025-01-01 00:00:00"), Ok(()));
    assert_eq!(
        check_invite_expiry(&Some("2024-12-31 23:59:59".into()), "2025-01-01 00:00:00"),
        Err("invite has expired".to_string())
    );
    assert_eq!(
        invite_preview("P".into(), "editor".into(), &Some("2026-01-01 00:00:00".into()), "2025-01-01 00:00:00"),
        Ok(InvitePreview { page_title: "P".into(), role: "editor".into() })
    );
}

#[test]
fn removing_members() {
    assert_eq!(remove_member_check(false, 1, 2), Err("only the owner can remove members".to_string()));
    assert_eq!(remove_member_check(true, 1, 1), Err("owner cannot remove themself".to_string()));
    assert_eq!(remove_member_check(true, 1, 2), Ok(()));
}
