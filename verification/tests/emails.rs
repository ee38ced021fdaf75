use syncnote::emails::{
    link_share_subject, note_email_html, note_email_subject, note_email_text, password_html_block,
    password_text_line, user_share_subject,
};

#[test]
fn note_mail() {
    assert_eq!(note_email_subject("Plan"), "Note: Plan");
    assert_eq!(
        note_email_text("Plan", "Ann", "2025-01-01", "body"),
        "Note: Plan\nShared by: Ann\nLast updated: 2025-01-01\n\n---\n\nbody"
    );
    let html = note_email_html("T", "S", "U", "<p>R</p>");
    assert!(html.starts_with("<div style=\"font-family: sans-serif;"));
    assert!(html.contains(">T</h1><p style=\"font-size: 12px; color: #64748b; margin: 0;\">Shared by S &bull; U</p></div>"));
    assert!(html.contains("<div style=\"font-size: 15px; color: #334155;\"><p>R</p></div>"));
    assert!(html.ends_with("Sent via SyncNote</p></div>"));
}

#[test]
fn share_mail_subjects() {
    assert_eq!(user_share_subject("Ann", "Plan"), "Ann shared \"Plan\" with you on SyncNote");
    assert_eq!(link_share_subject("Ann", "Plan"), "Ann shared a note with you: Plan");
}

#[test]
fn password_lines() {
    assert_eq!(password_text_line("pw"), "\n\nThis link is password protected. Password: pw");
    assert!(password_html_block("p&amp;w").contains("<strong>p&amp;w</strong></p>"));
}
