use syncnote::models::AuthUser;
use syncnote::notes::{
    included_password, link_password, mail_title, note_recipient, note_share_check,
    not_owned_note, public_note_link, scheme_for_host, sender_name, share_link_mail_precheck,
    shared_note_gate, shared_user_note_link, title_or_untitled, unlock_shared_note, NoteShareStep,
    SharedNoteGate,
};
use syncnote::password::hash;
use syncnote::text::escape_html;

#[test]
fn titles() {
    assert_eq!(title_or_untitled("  ".into()), "Untitled");
    assert_eq!(title_or_untitled(" Plan ".into()), " Plan ");
    assert_eq!(mail_title("".into()), "Untitled Note");
    assert_eq!(mail_title("x".into()), "x");
}

#[test]
fn sender_names() {
    let mut u = AuthUser { id: 1, email: "a@b.c".into(), display_name: None, is_admin: false };
    assert_eq!(sender_name(&u), "a@b.c");
    u.display_name = Some("Ann".into());
    assert_eq!(sender_name(&u), "Ann");
}

#[test]
fn recipients() {
    assert_eq!(note_recipient("  a@b "), Ok("a@b".to_string()));
    assert_eq!(note_recipient("   "), Err("input: invalid recipient email address".to_string()));
    assert_eq!(note_recipient("ab"), Err("input: invalid recipient email address".to_string()));
    assert_eq!(
        share_link_mail_precheck(" A@B ", " http://x/note/shared/t "),
        Ok(("a@b".to_string(), "http://x/note/shared/t".to_string()))
    );
    assert_eq!(share_link_mail_precheck("ab", "u"), Err("input: invalid email address".to_string()));
    assert_eq!(share_link_mail_precheck("a@b", "  "), Err("input: share URL is required".to_string()));
    assert_eq!(not_owned_note(), "note: not found or not owned by you");
}

#[test]
fn link_passwords() {
    assert_eq!(link_password(None), None);
    assert_eq!(link_password(Some("   ".into())), None);
    assert_eq!(link_password(Some(" pw ".into())), Some(" pw ".to_string()));
}

#[test]
fn shared_note_gates() {
    assert_eq!(shared_note_gate(false, &None), SharedNoteGate::Open);
    assert_eq!(shared_note_gate(true, &None), SharedNoteGate::PasswordRequired);
    assert_eq!(shared_note_gate(true, &Some("  ".into())), SharedNoteGate::PasswordRequired);
    assert_eq!(shared_note_gate(true, &Some(" pw ".into())), SharedNoteGate::Check("pw".into()));
}

#[test]
fn unlocking_shared_notes() {
    let h = hash("secret").unwrap();
    assert_eq!(unlock_shared_note(&None, &None), Ok(()));
    assert_eq!(unlock_shared_note(&Some(h.clone()), &None), Err("password_required".to_string()));
    assert_eq!(unlock_shared_note(&Some(h.clone()), &Some("nope".into())), Err("wrong_password".to_string()));
    assert_eq!(unlock_shared_note(&Some(h.clone()), &Some(" secret ".into())), Ok(()));
}

#[test]
fn mailed_password_only_when_verified() {
    let h = hash("secret").unwrap();
    assert_eq!(included_password(&Some(h.clone()), Some("secret".into())), Some("secret".to_string()));
    assert_eq!(included_password(&Some(h), Some("other".into())), None);
    assert_eq!(included_password(&None, Some("secret".into())), None);
    assert_eq!(escape_html("a<b>&c\""), "a&lt;b&gt;&amp;c\"");
}

#[test]
fn sharing_with_accounts() {
    assert_eq!(note_share_check(1, None, false), Ok(NoteShareStep::MailPublicLink));
    assert_eq!(note_share_check(1, Some(1), false), Err("user: you already own this note".to_string()));
    assert_eq!(note_share_check(1, Some(2), true), Err("user: already shared with that user".to_string()));
    assert_eq!(note_share_check(1, Some(2), false), Ok(NoteShareStep::Grant(2)));
}

#[test]
fn mail_links() {
    assert_eq!(scheme_for_host("localhost:3000"), "http");
    assert_eq!(scheme_for_host("127.0.0.1:3000"), "http");
    assert_eq!(scheme_for_host("notes.example.com"), "https");
    assert_eq!(shared_user_note_link("localhost:3000", 7), "http://localhost:3000/app/note/shared-user/7");
    assert_eq!(public_note_link("x.io", "abc"), "https://x.io/note/shared/abc");
}
