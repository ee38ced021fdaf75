//! Personal notes and their sharing: titles, recipients, share links and
//! the password of a protected link.

use vstd::prelude::*;

use crate::auth::{has_at_sign, contains_at_sign, normalize_email, normalized_email};
use crate::models::AuthUser;
use crate::password::{argon2_accepts, password_matches, phc_string_parses};
use crate::text::{
    chars_of, join_str, int_decimal, occurs_at, prefixed, push_i64_decimal, push_str,
    srv, starts_with, string_from_chars, to_owned_string, trim, trim_string,
    trims_to_empty,
};

verus! {

/// A note or page title as saved: a blank title becomes `Untitled`.
pub fn title_or_untitled(title: String) -> (r: String)
    ensures
        trim(title@).len() == 0 ==> r@ == "Untitled"@,
        trim(title@).len() != 0 ==> r == title,
{
    if trims_to_empty(title.as_str()) {
        to_owned_string("Untitled")
    } else {
        title
    }
}

/// The title a mailed note is given: a blank title becomes `Untitled Note`.
pub fn mail_title(title: String) -> (r: String)
    ensures
        trim(title@).len() == 0 ==> r@ == "Untitled Note"@,
        trim(title@).len() != 0 ==> r == title,
{
    if trims_to_empty(title.as_str()) {
        to_owned_string("Untitled Note")
    } else {
        title
    }
}

/// How a user is named as the sender of a mail: the display name, or the
/// email address when there is none.
pub fn sender_name(user: &AuthUser) -> (r: String)
    ensures
        match user.display_name {
            Some(n) => r == n,
            None => r == user.email,
        },
{
    match &user.display_name {
        Some(n) => n.clone(),
        None => user.email.clone(),
    }
}

/// The recipient of a mailed note: the trimmed address, which must be
/// non-empty and hold an `@`.
pub fn note_recipient(email: &str) -> (r: Result<String, String>)
    ensures
        ({
            let t = trim(email@);
            match r {
                Ok(a) => a@ == t && t.len() > 0 && has_at_sign(t),
                Err(m) => (t.len() == 0 || !has_at_sign(t)) && m@ == prefixed(
                    "input"@,
                    "invalid recipient email address"@,
                ),
            }
        }),
{
    let t = trim_string(email);
    let v = chars_of(t.as_str());
    if v.len() == 0 || !contains_at_sign(v.as_slice()) {
        return Err(srv("input", "invalid recipient email address"));
    }
    Ok(t)
}

/// The recipient and URL of a mailed share link: the trimmed, lowercased
/// address, which must be non-empty and hold an `@`, and the trimmed URL,
/// which must be non-empty.
pub fn share_link_mail_precheck(email: &str, share_url: &str) -> (r: Result<(String, String), String>)
    ensures
        ({
            let e = normalized_email(email@);
            let u = trim(share_url@);
            match r {
                Ok((a, b)) => a@ == e && b@ == u && e.len() > 0 && has_at_sign(e) && u.len() > 0,
                Err(m) => if e.len() == 0 || !has_at_sign(e) {
                    m@ == prefixed("input"@, "invalid email address"@)
                } else {
                    u.len() == 0 && m@ == prefixed("input"@, "share URL is required"@)
                },
            }
        }),
{
    let e = normalize_email(email);
    let ev = chars_of(e.as_str());
    if ev.len() == 0 || !contains_at_sign(ev.as_slice()) {
        return Err(srv("input", "invalid email address"));
    }
    let u = trim_string(share_url);
    if u.as_str().is_empty() {
        return Err(srv("input", "share URL is required"));
    }
    Ok((e, u))
}

/// The error of a note that the user does not own.
pub fn not_owned_note() -> (m: String)
    ensures
        m@ == prefixed("note"@, "not found or not owned by you"@),
{
    srv("note", "not found or not owned by you")
}

// ---------------------------------------------------------------------------
// Public share links
// ---------------------------------------------------------------------------

/// The password a new share link is protected with: the given one unless it
/// is blank (it is hashed as given, not trimmed).
pub fn link_password(password: Option<String>) -> (r: Option<String>)
    ensures
        match password {
            Some(p) => if trim(p@).len() == 0 {
                r is None
            } else {
                r == Some(p)
            },
            None => r is None,
        },
{
    match password {
        Some(p) => if trims_to_empty(p.as_str()) {
            None
        } else {
            Some(p)
        },
        None => None,
    }
}

/// What opening a shared note needs, given whether its link is protected
/// and the password the visitor supplied.
#[derive(Debug, Clone, PartialEq, Eq)]
pub enum SharedNoteGate {
    /// The link is open.
    Open,
    /// The link is protected and no (non-blank) password came.
    PasswordRequired,
    /// The link is protected: check this (trimmed) password.
    Check(String),
}

pub fn shared_note_gate(protected: bool, password: &Option<String>) -> (r: SharedNoteGate)
    ensures
        !protected ==> r == SharedNoteGate::Open,
        protected ==> match password {
            Some(p) => if trim(p@).len() == 0 {
                r == SharedNoteGate::PasswordRequired
            } else {
                r matches SharedNoteGate::Check(c) && c@ == trim(p@)
            },
            None => r == SharedNoteGate::PasswordRequired,
        },
{
    if !protected {
        return SharedNoteGate::Open;
    }
    match password {
        Some(p) => {
            let t = trim_string(p.as_str());
            if t.as_str().is_empty() {
                SharedNoteGate::PasswordRequired
            } else {
                SharedNoteGate::Check(t)
            }
        },
        None => SharedNoteGate::PasswordRequired,
    }
}

/// No password, or a blank one.
pub open spec fn password_blank(p: Option<String>) -> bool {
    match p {
        Some(x) => trim(x@).len() == 0,
        None => true,
    }
}

/// Opening a shared note: the stored hash of its link, if protected, and
/// the visitor's password. `Err` carries `password_required` or
/// `wrong_password`, which the page tells apart.
pub fn unlock_shared_note(stored_hash: &Option<String>, password: &Option<String>) -> (r: Result<
    (),
    String,
>)
    ensures
        stored_hash is None ==> r is Ok,
        stored_hash matches Some(h) ==> if password_blank(*password) {
            r matches Err(m) && m@ == "password_required"@
        } else {
            &&& password matches Some(p) && (r is Ok <==> argon2_accepts(trim(p@), h@))
            &&& r is Ok ==> phc_string_parses(h@)
            &&& r matches Err(m) ==> m@ == "wrong_password"@
        },
{
    match stored_hash {
        None => Ok(()),
        Some(h) => match shared_note_gate(true, password) {
            SharedNoteGate::PasswordRequired => Err(to_owned_string("password_required")),
            SharedNoteGate::Check(c) => if password_matches(c.as_str(), h.as_str()) {
                Ok(())
            } else {
                Err(to_owned_string("wrong_password"))
            },
            SharedNoteGate::Open => Ok(()),
        },
    }
}

/// The password a mailed share link may carry: only the one supplied by the
/// owner, and only when the link is protected and it matches the stored
/// hash. The client is not trusted to know whether the link is protected.
pub fn included_password(stored_hash: &Option<String>, candidate: Option<String>) -> (r: Option<
    String,
>)
    ensures
        r is Some ==> stored_hash is Some && r == candidate,
        r matches Some(_) ==> (stored_hash matches Some(h) && phc_string_parses(h@)),
        stored_hash is None || candidate is None ==> r is None,
        match (stored_hash, candidate) {
            (Some(h), Some(c)) => r is Some <==> argon2_accepts(c@, h@),
            _ => r is None,
        },
{
    match (stored_hash, candidate) {
        (Some(h), Some(c)) => if password_matches(c.as_str(), h.as_str()) {
            Some(c)
        } else {
            None
        },
        _ => None,
    }
}

// ---------------------------------------------------------------------------
// Sharing with accounts
// ---------------------------------------------------------------------------

/// What sharing a note with an email address does next.
#[derive(Debug, Clone, Copy, PartialEq, Eq, Structural)]
pub enum NoteShareStep {
    /// No account has that address: mail it a public link instead.
    MailPublicLink,
    /// Grant this account read access.
    Grant(i64),
}

/// Sharing a note with the account found for an email (`None`: no account):
/// refused for the owner's own account or an account it is already shared
/// with.
pub fn note_share_check(owner_id: i64, target: Option<i64>, already_shared: bool) -> (r: Result<
    NoteShareStep,
    String,
>)
    ensures
        match target {
            None => r == Ok::<NoteShareStep, String>(NoteShareStep::MailPublicLink),
            Some(t) => if t == owner_id {
                r matches Err(m) && m@ == prefixed("user"@, "you already own this note"@)
            } else if already_shared {
                r matches Err(m) && m@ == prefixed("user"@, "already shared with that user"@)
            } else {
                r == Ok::<NoteShareStep, String>(NoteShareStep::Grant(t))
            },
        },
{
    match target {
        None => Ok(NoteShareStep::MailPublicLink),
        Some(t) => if t == owner_id {
            Err(srv("user", "you already own this note"))
        } else if already_shared {
            Err(srv("user", "already shared with that user"))
        } else {
            Ok(NoteShareStep::Grant(t))
        },
    }
}

/// Links in mails use `http` for a local host and `https` otherwise.
pub open spec fn scheme_of_host(host: Seq<char>) -> Seq<char> {
    if occurs_at(host, 0, "localhost"@) || occurs_at(host, 0, "127."@) {
        "http"@
    } else {
        "https"@
    }
}

pub fn scheme_for_host(host: &str) -> (s: &'static str)
    ensures
        s@ == scheme_of_host(host@),
{
    if starts_with(host, "localhost") || starts_with(host, "127.") {
        "http"
    } else {
        "https"
    }
}

/// The in-app link to a note shared with an account.
pub open spec fn shared_user_note_url(host: Seq<char>, note_id: i64) -> Seq<char> {
    scheme_of_host(host) + "://"@ + host + "/app/note/shared-user/"@ + int_decimal(note_id as int)
}

pub fn shared_user_note_link(host: &str, note_id: i64) -> (s: String)
    ensures
        s@ == shared_user_note_url(host@, note_id),
{
    let mut v: Vec<char> = Vec::new();
    push_str(&mut v, scheme_for_host(host));
    push_str(&mut v, "://");
    push_str(&mut v, host);
    push_str(&mut v, "/app/note/shared-user/");
    push_i64_decimal(&mut v, note_id);
    string_from_chars(v.as_slice())
}

/// The public (no account needed) link of a shared note.
pub open spec fn public_note_url(host: Seq<char>, token: Seq<char>) -> Seq<char> {
    scheme_of_host(host) + "://"@ + host + "/note/shared/"@ + token
}

pub fn public_note_link(host: &str, token: &str) -> (s: String)
    ensures
        s@ == public_note_url(host@, token@),
{
    let mut v: Vec<char> = Vec::new();
    push_str(&mut v, scheme_for_host(host));
    push_str(&mut v, "://");
    push_str(&mut v, host);
    push_str(&mut v, "/note/shared/");
    push_str(&mut v, token);
    string_from_chars(v.as_slice())
}

} // verus!
