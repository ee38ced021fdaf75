use syncnote::models::PageEdit;
use syncnote::roles::MemberRole;
use syncnote::sync::{
    editor_sync_new, on_edit_message, on_local_input, on_server_message, prepare_send, try_apply,
    SyncAction,
};

fn edit(body: &str, version: i64) -> PageEdit {
    PageEdit { body: body.to_string(), version }
}

#[test]
fn edit_on_current_version_lands_and_bumps_version() {
    let page = Some(edit("old", 3));
    assert_eq!(try_apply(&page, &edit("new", 3)), Some(edit("new", 4)));
}

#[test]
fn stale_edit_is_refused() {
    let page = Some(edit("old", 3));
    assert_eq!(try_apply(&page, &edit("new", 2)), None);
    assert_eq!(try_apply(&None, &edit("new", 2)), None);
}

#[test]
fn accepted_edit_is_broadcast() {
    let page = Some(edit("old", 1));
    let (next, action) = on_edit_message(MemberRole::Editor, &page, &edit("new", 1));
    assert_eq!(next, Some(edit("new", 2)));
    assert_eq!(action, SyncAction::Broadcast(edit("new", 2)));
}

#[test]
fn stale_edit_gets_current_state_back() {
    let page = Some(edit("theirs", 5));
    let (next, action) = on_edit_message(MemberRole::Owner, &page, &edit("mine", 4));
    assert_eq!(next, page);
    assert_eq!(action, SyncAction::ReplyToSender(edit("theirs", 5)));
}

#[test]
fn viewer_edits_are_ignored() {
    let page = Some(edit("text", 5));
    let (next, action) = on_edit_message(MemberRole::Viewer, &page, &edit("hack", 5));
    assert_eq!(next, page);
    assert_eq!(action, SyncAction::Nothing);
}

#[test]
fn edit_to_missing_page_does_nothing() {
    let (next, action) = on_edit_message(MemberRole::Editor, &None, &edit("x", 0));
    assert_eq!(next, None);
    assert_eq!(action, SyncAction::Nothing);
}

#[test]
fn two_writers_on_same_version_first_wins() {
    let page = Some(edit("base", 7));
    let (after1, a1) = on_edit_message(MemberRole::Editor, &page, &edit("alice", 7));
    let (after2, a2) = on_edit_message(MemberRole::Editor, &after1, &edit("bob", 7));
    assert_eq!(a1, SyncAction::Broadcast(edit("alice", 8)));
    assert_eq!(after2, Some(edit("alice", 8)));
    assert_eq!(a2, SyncAction::ReplyToSender(edit("alice", 8)));
    let (after3, a3) = on_edit_message(MemberRole::Editor, &after2, &edit("bob rebased", 8));
    assert_eq!(a3, SyncAction::Broadcast(edit("bob rebased", 9)));
    assert_eq!(after3, Some(edit("bob rebased", 9)));
}

#[test]
fn editor_adopts_version_without_live_sync() {
    let s = editor_sync_new("mine".to_string(), 1);
    let r = on_server_message(&s, &edit("theirs", 2));
    assert_eq!(r.version, 2);
    assert_eq!(r.body, "mine");
}

#[test]
fn editor_applies_server_text_with_live_sync() {
    let mut s = editor_sync_new("mine".to_string(), 1);
    s.live_sync = true;
    let r = on_server_message(&s, &edit("theirs", 2));
    assert_eq!(r.body, "theirs");
    assert!(r.synced);
}

#[test]
fn editor_keeps_newer_text_over_own_stale_echo() {
    let mut s = editor_sync_new("abc".to_string(), 1);
    s.live_sync = true;
    let (msg, s) = prepare_send(&s);
    assert_eq!(msg, edit("abc", 1));
    let s = on_local_input(&s, "abcd".to_string());
    let r = on_server_message(&s, &edit("abc", 2));
    assert_eq!(r.body, "abcd");
    assert_eq!(r.version, 2);
    assert!(!r.synced);
}

#[test]
fn version_counts_accepted_writes() {
    let mut page = Some(PageEdit { body: "a".into(), version: 5 });
    let edits = [
        (MemberRole::Editor, PageEdit { body: "b".into(), version: 5 }),
        (MemberRole::Owner, PageEdit { body: "stale".into(), version: 5 }),
        (MemberRole::Viewer, PageEdit { body: "nope".into(), version: 6 }),
        (MemberRole::Owner, PageEdit { body: "c".into(), version: 6 }),
    ];
    let mut accepted = 0;
    for (role, edit) in edits {
        let (next, action) = on_edit_message(role, &page, &edit);
        if matches!(action, SyncAction::Broadcast(_)) {
            accepted += 1;
        }
        page = next;
    }
    assert_eq!(accepted, 2);
    assert_eq!(page, Some(PageEdit { body: "c".into(), version: 7 }));
}
