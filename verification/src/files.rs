//! Uploaded files (attachments): who may upload and read them, and how
//! they are listed and shared.

use vstd::prelude::*;

use crate::models::AttachmentInfo;
use crate::roles::{role_can_edit, MemberRole};
use crate::text::{
    join_str, int_decimal, prefixed, push_i64_decimal, push_str, srv, str_eq, string_from_chars,
    to_owned_string,
};

verus! {

/// The largest accepted upload, in bytes (10 MiB).
pub const MAX_UPLOAD_BYTES: usize = 10485760;

/// What an attachment belongs to.
#[derive(Debug, Clone, Copy, PartialEq, Eq, Structural)]
pub enum Scope {
    /// A personal note (`"note"`).
    Note,
    /// A shared page (`"shared_page"`).
    SharedPage,
    /// The owner's personal file library (`"library"`), not tied to a note
    /// or page.
    Library,
    /// Any other scope name.
    Other,
}

pub open spec fn scope_of(s: Seq<char>) -> Scope {
    if s == "note"@ {
        Scope::Note
    } else if s == "shared_page"@ {
        Scope::SharedPage
    } else if s == "library"@ {
        Scope::Library
    } else {
        Scope::Other
    }
}

pub fn parse_scope(s: &str) -> (r: Scope)
    ensures
        r == scope_of(s@),
{
    if str_eq(s, "note") {
        Scope::Note
    } else if str_eq(s, "shared_page") {
        Scope::SharedPage
    } else if str_eq(s, "library") {
        Scope::Library
    } else {
        Scope::Other
    }
}

/// What the database says of a user and the note or page an attachment's
/// scope id points to.
#[derive(Debug, Clone, Copy, PartialEq, Eq, Structural)]
pub struct ScopeAccess {
    /// The user owns the note with that id.
    pub owns_note: bool,
    /// The user's role on the shared page with that id, if a member.
    pub page_role: Option<MemberRole>,
}

/// Writing (uploading) to a note needs its ownership; to a shared page, the
/// owner or editor role. No other scope is writable through this check.
pub open spec fn may_write(scope: Scope, a: ScopeAccess) -> bool {
    match scope {
        Scope::Note => a.owns_note,
        Scope::SharedPage => a.page_role matches Some(r) && role_can_edit(r),
        _ => false,
    }
}

/// Reading a note's files needs its ownership; a shared page's, membership.
pub open spec fn may_read(scope: Scope, a: ScopeAccess) -> bool {
    match scope {
        Scope::Note => a.owns_note,
        Scope::SharedPage => a.page_role is Some,
        _ => false,
    }
}

pub fn can_write(scope: Scope, a: ScopeAccess) -> (b: bool)
    ensures
        b == may_write(scope, a),
{
    match scope {
        Scope::Note => a.owns_note,
        Scope::SharedPage => match a.page_role {
            Some(r) => r.can_edit(),
            None => false,
        },
        _ => false,
    }
}

pub fn can_read(scope: Scope, a: ScopeAccess) -> (b: bool)
    ensures
        b == may_read(scope, a),
{
    match scope {
        Scope::Note => a.owns_note,
        Scope::SharedPage => a.page_role.is_some(),
        _ => false,
    }
}

/// Whoever may write to a scope may read it.
pub proof fn lemma_write_implies_read(scope: Scope, a: ScopeAccess)
    ensures
        may_write(scope, a) ==> may_read(scope, a),
{
}

/// Where an accepted upload goes.
#[derive(Debug, Clone, Copy, PartialEq, Eq, Structural)]
pub enum UploadTarget {
    /// The uploader's own library: any signed-in user may upload there.
    Library,
    /// A note or page, after the write check.
    Scoped(Scope, i64),
}

/// An upload refused with an HTTP status and a message.
#[derive(Debug, Clone, PartialEq, Eq)]
pub struct UploadRefusal {
    pub status: u16,
    pub message: String,
}

pub open spec fn refused_with(r: UploadRefusal, status: u16, msg: Seq<char>) -> bool {
    r.status == status && r.message@ == msg
}

fn refusal(status: u16, msg: &str) -> (r: UploadRefusal)
    ensures
        refused_with(r, status, msg@),
{
    UploadRefusal { status, message: to_owned_string(msg) }
}

/// The checks of an upload's form before any database lookup: a scope and a
/// file are needed, the file must fit, and a note or page needs its id.
pub fn upload_precheck(scope: &Option<String>, scope_id: Option<i64>, file_size: Option<usize>) -> (r:
    Result<UploadTarget, UploadRefusal>)
    ensures
        match (scope, file_size) {
            (Some(s), Some(n)) => if n > MAX_UPLOAD_BYTES {
                r matches Err(e) && refused_with(e, 413, "file too large (max 10MB)"@)
            } else if scope_of(s@) == Scope::Library {
                r == Ok::<UploadTarget, UploadRefusal>(UploadTarget::Library)
            } else {
                match scope_id {
                    Some(id) => r == Ok::<UploadTarget, UploadRefusal>(
                        UploadTarget::Scoped(scope_of(s@), id),
                    ),
                    None => r matches Err(e) && refused_with(e, 400, "missing scope_id"@),
                }
            },
            _ => r matches Err(e) && refused_with(e, 400, "missing scope or file"@),
        },
{
    let (s, n) = match (scope, file_size) {
        (Some(s), Some(n)) => (s, n),
        _ => return Err(refusal(400, "missing scope or file")),
    };
    if n > MAX_UPLOAD_BYTES {
        return Err(refusal(413, "file too large (max 10MB)"));
    }
    let sc = parse_scope(s.as_str());
    if sc == Scope::Library {
        return Ok(UploadTarget::Library);
    }
    match scope_id {
        Some(id) => Ok(UploadTarget::Scoped(sc, id)),
        None => Err(refusal(400, "missing scope_id")),
    }
}

/// The refusal of an upload to a note or page that the user may not write.
pub fn upload_forbidden() -> (r: UploadRefusal)
    ensures
        refused_with(r, 403, "not permitted"@),
{
    refusal(403, "not permitted")
}

/// The URL an attachment is served at.
pub open spec fn attachment_url(id: i64) -> Seq<char> {
    "/attachments/"@ + int_decimal(id as int)
}

pub fn attachment_url_of(id: i64) -> (s: String)
    ensures
        s@ == attachment_url(id),
{
    let mut v: Vec<char> = Vec::new();
    push_str(&mut v, "/attachments/");
    push_i64_decimal(&mut v, id);
    string_from_chars(v.as_slice())
}

/// Whether a signed-in user may download an attachment. A library file has
/// no note or page to check against: only its owner may read it, even once
/// its URL is pasted into a note.
pub open spec fn may_download(scope: Scope, owner_id: i64, user_id: i64, a: ScopeAccess) -> bool {
    if scope == Scope::Library {
        owner_id == user_id
    } else {
        may_read(scope, a)
    }
}

pub fn can_download(scope: Scope, owner_id: i64, user_id: i64, a: ScopeAccess) -> (b: bool)
    ensures
        b == may_download(scope, owner_id, user_id, a),
{
    if scope == Scope::Library {
        owner_id == user_id
    } else {
        can_read(scope, a)
    }
}

/// The `Content-Disposition` value an attachment is served with.
pub fn content_disposition(filename: &str) -> (s: String)
    ensures
        s@ == "inline; filename=\""@ + filename@ + "\""@,
{
    let mut s = to_owned_string("inline; filename=\"");
    s.append(filename);
    s.append("\"");
    s
}

/// An attachment row as listed for its owner or for a user it was shared
/// with.
#[derive(Debug, Clone, PartialEq, Eq)]
pub struct AttachmentRow {
    pub id: i64,
    pub filename: String,
    pub content_type: String,
    pub byte_size: i64,
    pub created_at: String,
    pub scope: String,
    pub scope_id: Option<i64>,
    pub scope_title: Option<String>,
    pub is_owner: bool,
    pub shared_by_email: Option<String>,
}

/// The in-app link to the note or page an attachment belongs to, when that
/// still exists (its title was found).
pub open spec fn scope_link_of(scope: Seq<char>, scope_id: Option<i64>, has_title: bool) -> Option<
    Seq<char>,
> {
    match scope_id {
        Some(sid) => if !has_title {
            None
        } else if scope == "note"@ {
            Some("/app/note/"@ + int_decimal(sid as int))
        } else if scope == "shared_page"@ {
            Some("/app/shared/"@ + int_decimal(sid as int))
        } else {
            None
        },
        None => None,
    }
}

fn link_with_id(prefix: &str, id: i64) -> (s: String)
    ensures
        s@ == prefix@ + int_decimal(id as int),
{
    let mut v: Vec<char> = Vec::new();
    push_str(&mut v, prefix);
    push_i64_decimal(&mut v, id);
    string_from_chars(v.as_slice())
}

pub fn row_to_attachment_info(row: AttachmentRow) -> (info: AttachmentInfo)
    ensures
        info.id == row.id,
        info.filename == row.filename,
        info.content_type == row.content_type,
        info.byte_size == row.byte_size,
        info.created_at == row.created_at,
        info.scope == row.scope,
        info.scope_title == row.scope_title,
        info.is_owner == row.is_owner,
        info.shared_by_email == row.shared_by_email,
        info.url@ == attachment_url(row.id),
        match scope_link_of(row.scope@, row.scope_id, row.scope_title is Some) {
            Some(l) => info.scope_link matches Some(k) && k@ == l,
            None => info.scope_link is None,
        },
{
    let sc = parse_scope(row.scope.as_str());
    let scope_link = match row.scope_id {
        Some(sid) => if row.scope_title.is_none() {
            None
        } else if sc == Scope::Note {
            Some(link_with_id("/app/note/", sid))
        } else if sc == Scope::SharedPage {
            Some(link_with_id("/app/shared/", sid))
        } else {
            None
        },
        None => None,
    };
    let url = attachment_url_of(row.id);
    AttachmentInfo {
        id: row.id,
        filename: row.filename,
        content_type: row.content_type,
        byte_size: row.byte_size,
        created_at: row.created_at,
        scope: row.scope,
        scope_title: row.scope_title,
        scope_link,
        url,
        is_owner: row.is_owner,
        shared_by_email: row.shared_by_email,
    }
}

// ---------------------------------------------------------------------------
// File shares
// ---------------------------------------------------------------------------

/// Sharing a file with the account found for an email: refused when there
/// is none or it is the owner's own, or the file is already shared with it.
pub fn file_share_check(owner_id: i64, target: Option<i64>, already_shared: bool) -> (r: Result<
    i64,
    String,
>)
    ensures
        match target {
            None => r matches Err(m) && m@ == prefixed("user"@, "no account with that email"@),
            Some(t) => if t == owner_id {
                r matches Err(m) && m@ == prefixed("user"@, "you already own this file"@)
            } else if already_shared {
                r matches Err(m) && m@ == prefixed("user"@, "already shared with that user"@)
            } else {
                r == Ok::<i64, String>(t)
            },
        },
{
    match target {
        None => Err(srv("user", "no account with that email")),
        Some(t) => if t == owner_id {
            Err(srv("user", "you already own this file"))
        } else if already_shared {
            Err(srv("user", "already shared with that user"))
        } else {
            Ok(t)
        },
    }
}

/// The limit of downloads of a new public link must be at least one.
pub fn check_max_downloads(max_downloads: Option<i64>) -> (r: Result<(), String>)
    ensures
        (max_downloads matches Some(n) && n < 1) <==> r is Err,
        r matches Err(m) ==> m@ == prefixed("input"@, "max downloads must be at least 1"@),
{
    if let Some(n) = max_downloads {
        if n < 1 {
            return Err(srv("input", "max downloads must be at least 1"));
        }
    }
    Ok(())
}

/// The path of a public file link.
pub fn file_share_url(token: &str) -> (s: String)
    ensures
        s@ == "/share/"@ + token@,
{
    join_str("/share/", token)
}

/// The name and type an upload is stored under: as the browser sent them,
/// else `file` and `application/octet-stream`.
pub fn upload_file_meta(file_name: Option<&str>, content_type: Option<&str>) -> (r: (String, String))
    ensures
        match file_name {
            Some(n) => r.0@ == n@,
            None => r.0@ == "file"@,
        },
        match content_type {
            Some(c) => r.1@ == c@,
            None => r.1@ == "application/octet-stream"@,
        },
{
    let name = match file_name {
        Some(n) => to_owned_string(n),
        None => to_owned_string("file"),
    };
    let kind = match content_type {
        Some(c) => to_owned_string(c),
        None => to_owned_string("application/octet-stream"),
    };
    (name, kind)
}

} // verus!
