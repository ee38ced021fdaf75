//! The texts of the mails the app sends.

use vstd::prelude::*;

use crate::text::to_owned_string;

verus! {

pub const NOTE_SUBJECT_0: &'static str = "Note: ";
pub const NOTE_SUBJECT_1: &'static str = "";

/// Subject of a note sent by email.
pub fn note_email_subject(title: &str) -> (s: String)
    ensures
        s@ == NOTE_SUBJECT_0@ + title@ + NOTE_SUBJECT_1@,
{
    let mut s = to_owned_string(NOTE_SUBJECT_0);
    s.append(title);
    s.append(NOTE_SUBJECT_1);
    s
}

pub const NOTE_HTML_0: &'static str = "<div style=\"font-family: sans-serif; line-height: 1.6; color: #1e293b; max-width: 680px; margin: 0 auto; padding: 20px;\">\
            <div style=\"border-bottom: 2px solid #e2e8f0; padding-bottom: 12px; margin-bottom: 20px;\">\
                <h1 style=\"font-size: 22px; font-weight: bold; color: #0f172a; margin: 0 0 6px 0;\">";
pub const NOTE_HTML_1: &'static str = "</h1>\
                <p style=\"font-size: 12px; color: #64748b; margin: 0;\">Shared by ";
pub const NOTE_HTML_2: &'static str = " &bull; ";
pub const NOTE_HTML_3: &'static str = "</p>\
            </div>\
            <div style=\"font-size: 15px; color: #334155;\">\
                ";
pub const NOTE_HTML_4: &'static str = "\
            </div>\
            <hr style=\"border: none; border-top: 1px solid #e2e8f0; margin: 32px 0 16px 0;\"/>\
            <p style=\"font-size: 11px; color: #94a3b8;\">Sent via SyncNote</p>\
        </div>";

/// HTML body of a note sent by email.
pub fn note_email_html(title: &str, sender_name: &str, updated_at: &str, rendered_html: &str) -> (s: String)
    ensures
        s@ == NOTE_HTML_0@ + title@ + NOTE_HTML_1@ + sender_name@ + NOTE_HTML_2@ + updated_at@ + NOTE_HTML_3@ + rendered_html@ + NOTE_HTML_4@,
{
    let mut s = to_owned_string(NOTE_HTML_0);
    s.append(title);
    s.append(NOTE_HTML_1);
    s.append(sender_name);
    s.append(NOTE_HTML_2);
    s.append(updated_at);
    s.append(NOTE_HTML_3);
    s.append(rendered_html);
    s.append(NOTE_HTML_4);
    s
}

pub const USER_SHARE_SUBJECT_0: &'static str = "";
pub const USER_SHARE_SUBJECT_1: &'static str = " shared \"";
pub const USER_SHARE_SUBJECT_2: &'static str = "\" with you on SyncNote";

/// Subject of the notice that a note was shared with an account.
pub fn user_share_subject(sender_name: &str, note_title: &str) -> (s: String)
    ensures
        s@ == USER_SHARE_SUBJECT_0@ + sender_name@ + USER_SHARE_SUBJECT_1@ + note_title@ + USER_SHARE_SUBJECT_2@,
{
    let mut s = to_owned_string(USER_SHARE_SUBJECT_0);
    s.append(sender_name);
    s.append(USER_SHARE_SUBJECT_1);
    s.append(note_title);
    s.append(USER_SHARE_SUBJECT_2);
    s
}

pub const USER_SHARE_TEXT_0: &'static str = "";
pub const USER_SHARE_TEXT_1: &'static str = " has shared the note \"";
pub const USER_SHARE_TEXT_2: &'static str = "\" with you on SyncNote.\n\nSign in and view it here:\n";
pub const USER_SHARE_TEXT_3: &'static str = "";

/// Text body of the notice that a note was shared with an account.
pub fn user_share_text(sender_name: &str, note_title: &str, note_url: &str) -> (s: String)
    ensures
        s@ == USER_SHARE_TEXT_0@ + sender_name@ + USER_SHARE_TEXT_1@ + note_title@ + USER_SHARE_TEXT_2@ + note_url@ + USER_SHARE_TEXT_3@,
{
    let mut s = to_owned_string(USER_SHARE_TEXT_0);
    s.append(sender_name);
    s.append(USER_SHARE_TEXT_1);
    s.append(note_title);
    s.append(USER_SHARE_TEXT_2);
    s.append(note_url);
    s.append(USER_SHARE_TEXT_3);
    s
}

pub const USER_SHARE_HTML_0: &'static str = r#"<div style="font-family:-apple-system,BlinkMacSystemFont,'Segoe UI',Roboto,Helvetica,Arial,sans-serif;line-height:1.6;color:#1e293b;max-width:600px;margin:0 auto;padding:24px;">
  <div style="background:#f8fafc;border:1px solid #e2e8f0;border-radius:12px;padding:28px;">
    <div style="display:flex;align-items:center;gap:10px;margin-bottom:28px;">
      <div style="width:36px;height:36px;background:#4f46e5;border-radius:8px;text-align:center;line-height:36px;font-size:20px;">
        <span style="color:#fff;">✎</span>
      </div>
      <span style="font-size:20px;font-weight:700;color:#0f172a;letter-spacing:-0.5px;">SyncNote</span>
    </div>
    <h1 style="font-size:22px;font-weight:700;color:#0f172a;margin:0 0 8px 0;">"#;
pub const USER_SHARE_HTML_1: &'static str = r#"</h1>
    <p style="font-size:14px;color:#64748b;margin:0 0 24px 0;">
      <strong style="color:#334155;">"#;
pub const USER_SHARE_HTML_2: &'static str = r#"</strong> has shared this note with you.
    </p>
    <a href=""#;
pub const USER_SHARE_HTML_3: &'static str = r#"" style="display:inline-block;padding:12px 28px;background:#4f46e5;color:#ffffff;text-decoration:none;border-radius:8px;font-weight:600;font-size:15px;">
      View Note →
    </a>
    <p style="font-size:12px;color:#94a3b8;margin-top:24px;border-top:1px solid #e2e8f0;padding-top:16px;">
      Or paste this link:<br/>
      <a href=""#;
pub const USER_SHARE_HTML_4: &'static str = r#"" style="color:#6366f1;word-break:break-all;">"#;
pub const USER_SHARE_HTML_5: &'static str = r#"</a>
    </p>
  </div>
  <p style="font-size:11px;color:#94a3b8;text-align:center;margin-top:16px;">Sent via SyncNote · Sign in to view this note.</p>
</div>"#;

/// HTML body of the notice that a note was shared with an account.
pub fn user_share_html(note_title: &str, sender_name: &str, note_url: &str) -> (s: String)
    ensures
        s@ == USER_SHARE_HTML_0@ + note_title@ + USER_SHARE_HTML_1@ + sender_name@ + USER_SHARE_HTML_2@ + note_url@ + USER_SHARE_HTML_3@ + note_url@ + USER_SHARE_HTML_4@ + note_url@ + USER_SHARE_HTML_5@,
{
    let mut s = to_owned_string(USER_SHARE_HTML_0);
    s.append(note_title);
    s.append(USER_SHARE_HTML_1);
    s.append(sender_name);
    s.append(USER_SHARE_HTML_2);
    s.append(note_url);
    s.append(USER_SHARE_HTML_3);
    s.append(note_url);
    s.append(USER_SHARE_HTML_4);
    s.append(note_url);
    s.append(USER_SHARE_HTML_5);
    s
}

pub const LINK_SHARE_SUBJECT_0: &'static str = "";
pub const LINK_SHARE_SUBJECT_1: &'static str = " shared a note with you: ";
pub const LINK_SHARE_SUBJECT_2: &'static str = "";

/// Subject of a mailed public note link.
pub fn link_share_subject(sender_name: &str, note_title: &str) -> (s: String)
    ensures
        s@ == LINK_SHARE_SUBJECT_0@ + sender_name@ + LINK_SHARE_SUBJECT_1@ + note_title@ + LINK_SHARE_SUBJECT_2@,
{
    let mut s = to_owned_string(LINK_SHARE_SUBJECT_0);
    s.append(sender_name);
    s.append(LINK_SHARE_SUBJECT_1);
    s.append(note_title);
    s.append(LINK_SHARE_SUBJECT_2);
    s
}

pub const NON_USER_SHARE_TEXT_0: &'static str = "";
pub const NON_USER_SHARE_TEXT_1: &'static str = " has shared \"";
pub const NON_USER_SHARE_TEXT_2: &'static str = "\" with you via SyncNote.\n\nYou don't have a SyncNote account yet, so here's a read-only link (no account required):\n";
pub const NON_USER_SHARE_TEXT_3: &'static str = "";

/// Text body of the public link mailed to an address without an account.
pub fn non_user_share_text(sender_name: &str, note_title: &str, share_url: &str) -> (s: String)
    ensures
        s@ == NON_USER_SHARE_TEXT_0@ + sender_name@ + NON_USER_SHARE_TEXT_1@ + note_title@ + NON_USER_SHARE_TEXT_2@ + share_url@ + NON_USER_SHARE_TEXT_3@,
{
    let mut s = to_owned_string(NON_USER_SHARE_TEXT_0);
    s.append(sender_name);
    s.append(NON_USER_SHARE_TEXT_1);
    s.append(note_title);
    s.append(NON_USER_SHARE_TEXT_2);
    s.append(share_url);
    s.append(NON_USER_SHARE_TEXT_3);
    s
}

pub const NON_USER_SHARE_HTML_0: &'static str = r#"<div style="font-family:-apple-system,BlinkMacSystemFont,'Segoe UI',Roboto,Helvetica,Arial,sans-serif;line-height:1.6;color:#1e293b;max-width:600px;margin:0 auto;padding:24px;">
  <div style="background:#f8fafc;border:1px solid #e2e8f0;border-radius:12px;padding:28px;">
    <div style="display:flex;align-items:center;gap:10px;margin-bottom:28px;">
      <div style="width:36px;height:36px;background:#4f46e5;border-radius:8px;text-align:center;line-height:36px;font-size:20px;">
        <span style="color:#fff;">✎</span>
      </div>
      <span style="font-size:20px;font-weight:700;color:#0f172a;letter-spacing:-0.5px;">SyncNote</span>
    </div>
    <h1 style="font-size:22px;font-weight:700;color:#0f172a;margin:0 0 8px 0;">"#;
pub const NON_USER_SHARE_HTML_1: &'static str = r#"</h1>
    <p style="font-size:14px;color:#64748b;margin:0 0 24px 0;">
      <strong style="color:#334155;">"#;
pub const NON_USER_SHARE_HTML_2: &'static str = r#"</strong> has shared this note with you. You don't have a SyncNote account yet, so here's a read-only link — no account required.
    </p>
    <a href=""#;
pub const NON_USER_SHARE_HTML_3: &'static str = r#"" style="display:inline-block;padding:12px 28px;background:#4f46e5;color:#ffffff;text-decoration:none;border-radius:8px;font-weight:600;font-size:15px;">
      View Note →
    </a>
    <p style="font-size:12px;color:#94a3b8;margin-top:24px;border-top:1px solid #e2e8f0;padding-top:16px;">
      Or paste this link in your browser:<br/>
      <a href=""#;
pub const NON_USER_SHARE_HTML_4: &'static str = r#"" style="color:#6366f1;word-break:break-all;">"#;
pub const NON_USER_SHARE_HTML_5: &'static str = r#"</a>
    </p>
  </div>
  <p style="font-size:11px;color:#94a3b8;text-align:center;margin-top:16px;">Sent via SyncNote</p>
</div>"#;

/// HTML body of the public link mailed to an address without an account.
pub fn non_user_share_html(note_title: &str, sender_name: &str, share_url: &str) -> (s: String)
    ensures
        s@ == NON_USER_SHARE_HTML_0@ + note_title@ + NON_USER_SHARE_HTML_1@ + sender_name@ + NON_USER_SHARE_HTML_2@ + share_url@ + NON_USER_SHARE_HTML_3@ + share_url@ + NON_USER_SHARE_HTML_4@ + share_url@ + NON_USER_SHARE_HTML_5@,
{
    let mut s = to_owned_string(NON_USER_SHARE_HTML_0);
    s.append(note_title);
    s.append(NON_USER_SHARE_HTML_1);
    s.append(sender_name);
    s.append(NON_USER_SHARE_HTML_2);
    s.append(share_url);
    s.append(NON_USER_SHARE_HTML_3);
    s.append(share_url);
    s.append(NON_USER_SHARE_HTML_4);
    s.append(share_url);
    s.append(NON_USER_SHARE_HTML_5);
    s
}

pub const SHARE_LINK_TEXT_0: &'static str = "";
pub const SHARE_LINK_TEXT_1: &'static str = " has shared \"";
pub const SHARE_LINK_TEXT_2: &'static str = "\" with you via SyncNote.\n\nView it here (no account required):\n";
pub const SHARE_LINK_TEXT_3: &'static str = "";
pub const SHARE_LINK_TEXT_4: &'static str = "";

/// Text body of a public note link mailed by its owner.
pub fn share_link_text(sender_name: &str, title: &str, share_url: &str, password_text_line: &str) -> (s: String)
    ensures
        s@ == SHARE_LINK_TEXT_0@ + sender_name@ + SHARE_LINK_TEXT_1@ + title@ + SHARE_LINK_TEXT_2@ + share_url@ + SHARE_LINK_TEXT_3@ + password_text_line@ + SHARE_LINK_TEXT_4@,
{
    let mut s = to_owned_string(SHARE_LINK_TEXT_0);
    s.append(sender_name);
    s.append(SHARE_LINK_TEXT_1);
    s.append(title);
    s.append(SHARE_LINK_TEXT_2);
    s.append(share_url);
    s.append(SHARE_LINK_TEXT_3);
    s.append(password_text_line);
    s.append(SHARE_LINK_TEXT_4);
    s
}

pub const SHARE_LINK_HTML_0: &'static str = r#"<div style="font-family:-apple-system,BlinkMacSystemFont,'Segoe UI',Roboto,Helvetica,Arial,sans-serif;line-height:1.6;color:#1e293b;max-width:600px;margin:0 auto;padding:24px;">
  <div style="background:#f8fafc;border:1px solid #e2e8f0;border-radius:12px;padding:28px;">
    <div style="display:flex;align-items:center;gap:10px;margin-bottom:28px;">
      <div style="width:36px;height:36px;background:#4f46e5;border-radius:8px;text-align:center;line-height:36px;font-size:20px;">
        <span style="color:#fff;">✎</span>
      </div>
      <span style="font-size:20px;font-weight:700;color:#0f172a;letter-spacing:-0.5px;">SyncNote</span>
    </div>
    <h1 style="font-size:22px;font-weight:700;color:#0f172a;margin:0 0 8px 0;">"#;
pub const SHARE_LINK_HTML_1: &'static str = r#"</h1>
    <p style="font-size:14px;color:#64748b;margin:0 0 24px 0;">
      <strong style="color:#334155;">"#;
pub const SHARE_LINK_HTML_2: &'static str = r#"</strong> has shared this note with you.
    </p>
    <a href=""#;
pub const SHARE_LINK_HTML_3: &'static str = r#"" style="display:inline-block;padding:12px 28px;background:#4f46e5;color:#ffffff;text-decoration:none;border-radius:8px;font-weight:600;font-size:15px;">
      View Note →
    </a>
    <p style="font-size:12px;color:#94a3b8;margin-top:24px;border-top:1px solid #e2e8f0;padding-top:16px;">
      Or paste this link in your browser:<br/>
      <a href=""#;
pub const SHARE_LINK_HTML_4: &'static str = r#"" style="color:#6366f1;word-break:break-all;">"#;
pub const SHARE_LINK_HTML_5: &'static str = r#"</a>
    </p>
    <p style="font-size:12px;color:#94a3b8;margin-top:8px;">🔒 Read-only · No account required to view</p>
    "#;
pub const SHARE_LINK_HTML_6: &'static str = r#"
  </div>
  <p style="font-size:11px;color:#94a3b8;text-align:center;margin-top:16px;">Sent via SyncNote</p>
</div>"#;

/// HTML body of a public note link mailed by its owner.
pub fn share_link_html(title: &str, sender_name: &str, share_url: &str, password_html_block: &str) -> (s: String)
    ensures
        s@ == SHARE_LINK_HTML_0@ + title@ + SHARE_LINK_HTML_1@ + sender_name@ + SHARE_LINK_HTML_2@ + share_url@ + SHARE_LINK_HTML_3@ + share_url@ + SHARE_LINK_HTML_4@ + share_url@ + SHARE_LINK_HTML_5@ + password_html_block@ + SHARE_LINK_HTML_6@,
{
    let mut s = to_owned_string(SHARE_LINK_HTML_0);
    s.append(title);
    s.append(SHARE_LINK_HTML_1);
    s.append(sender_name);
    s.append(SHARE_LINK_HTML_2);
    s.append(share_url);
    s.append(SHARE_LINK_HTML_3);
    s.append(share_url);
    s.append(SHARE_LINK_HTML_4);
    s.append(share_url);
    s.append(SHARE_LINK_HTML_5);
    s.append(password_html_block);
    s.append(SHARE_LINK_HTML_6);
    s
}

/// Text body of a note sent by email.
pub fn note_email_text(title: &str, sender_name: &str, updated_at: &str, body: &str) -> (s: String)
    ensures
        s@ == "Note: "@ + title@ + "\nShared by: "@ + sender_name@ + "\nLast updated: "@
            + updated_at@ + "\n\n---\n\n"@ + body@,
{
    let mut s = to_owned_string("Note: ");
    s.append(title);
    s.append("\nShared by: ");
    s.append(sender_name);
    s.append("\nLast updated: ");
    s.append(updated_at);
    s.append("\n\n---\n\n");
    s.append(body);
    s
}

/// The line a mailed share link gets when it carries the link's password.
pub fn password_text_line(password: &str) -> (s: String)
    ensures
        s@ == "\n\nThis link is password protected. Password: "@ + password@,
{
    let mut s = to_owned_string("\n\nThis link is password protected. Password: ");
    s.append(password);
    s
}

pub const PASSWORD_HTML_0: &'static str = r#"<p style="font-size:12px;color:#334155;margin-top:12px;background:#f1f5f9;border-radius:6px;padding:8px 12px;">🔒 This link is password protected. Password: <strong>"#;

pub const PASSWORD_HTML_1: &'static str = r#"</strong></p>"#;

/// The HTML block a mailed share link gets when it carries the link's
/// password (already escaped).
pub fn password_html_block(escaped: &str) -> (s: String)
    ensures
        s@ == PASSWORD_HTML_0@ + escaped@ + PASSWORD_HTML_1@,
{
    let mut s = to_owned_string(PASSWORD_HTML_0);
    s.append(escaped);
    s.append(PASSWORD_HTML_1);
    s
}

} // verus!
