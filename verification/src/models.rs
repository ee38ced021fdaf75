use vstd::prelude::*;

use crate::roles::MemberRole;

verus! {

/// The signed-in user as the client sees it. Never carries the password
/// hash: that stays on the server.
#[derive(Debug, Clone, PartialEq, Eq)]
pub struct AuthUser {
    pub id: i64,
    pub email: String,
    pub display_name: Option<String>,
    pub is_admin: bool,
}

/// A row of the admin's user list.
#[derive(Debug, Clone, PartialEq, Eq)]
pub struct AdminUserInfo {
    pub id: i64,
    pub email: String,
    pub display_name: Option<String>,
    pub is_admin: bool,
    pub locked: bool,
    pub created_at: String,
    pub last_login_at: Option<String>,
}

/// What the client gets back after a successful upload.
#[derive(Debug, Clone, PartialEq, Eq)]
pub struct UploadResult {
    pub id: i64,
    pub filename: String,
    pub content_type: String,
    pub url: String,
}

/// A row of the "My Files" manager. `scope_title`/`scope_link` are `None`
/// once the note or page the file was attached to is gone.
#[derive(Debug, Clone, PartialEq, Eq)]
pub struct AttachmentInfo {
    pub id: i64,
    pub filename: String,
    pub content_type: String,
    pub byte_size: i64,
    pub created_at: String,
    pub scope: String,
    pub scope_title: Option<String>,
    pub scope_link: Option<String>,
    pub url: String,
    pub is_owner: bool,
    pub shared_by_email: Option<String>,
}

fn copy_opt(s: &Option<String>) -> (r: Option<String>)
    ensures
        r == *s,
{
    match s {
        Some(x) => Some(x.clone()),
        None => None,
    }
}

impl AttachmentInfo {
    /// A copy of this entry.
    pub fn copy(&self) -> (r: AttachmentInfo)
        ensures
            r == *self,
    {
        AttachmentInfo {
            id: self.id,
            filename: self.filename.clone(),
            content_type: self.content_type.clone(),
            byte_size: self.byte_size,
            created_at: self.created_at.clone(),
            scope: self.scope.clone(),
            scope_title: copy_opt(&self.scope_title),
            scope_link: copy_opt(&self.scope_link),
            url: self.url.clone(),
            is_owner: self.is_owner,
            shared_by_email: copy_opt(&self.shared_by_email),
        }
    }
}

/// A personal note.
#[derive(Debug, Clone, PartialEq, Eq)]
pub struct Note {
    pub id: i64,
    pub title: String,
    pub body: String,
    pub updated_at: String,
}

impl Note {
    /// A copy of this note.
    pub fn copy(&self) -> (r: Note)
        ensures
            r == *self,
    {
        Note {
            id: self.id,
            title: self.title.clone(),
            body: self.body.clone(),
            updated_at: self.updated_at.clone(),
        }
    }
}

/// A user a note has been shared with directly.
#[derive(Debug, Clone, PartialEq, Eq)]
pub struct NoteShareInfo {
    pub user_id: i64,
    pub email: String,
}

/// How sharing a note with an email address went: the address belongs to an
/// account (direct access granted), or it does not and a public link was
/// mailed instead.
#[derive(Debug, Clone, PartialEq, Eq)]
pub enum ShareOutcome {
    SharedWithUser(NoteShareInfo),
    LinkEmailed,
}

/// A shared page as one of its members sees it.
#[derive(Debug, Clone, PartialEq, Eq)]
pub struct SharedPage {
    pub id: i64,
    pub title: String,
    pub body: String,
    pub version: i64,
    pub my_role: MemberRole,
    pub updated_at: String,
}

/// A member of a shared page.
#[derive(Debug, Clone, PartialEq, Eq)]
pub struct SharedPageMember {
    pub user_id: i64,
    pub email: String,
    pub role: MemberRole,
}

/// The live-sync wire message, in both directions: from a client, "my edit,
/// based on `version`"; from the server, "the current state is
/// `body`/`version`".
#[derive(Debug, Clone, PartialEq, Eq)]
pub struct PageEdit {
    pub body: String,
    pub version: i64,
}

/// A sign-up invite code.
#[derive(Debug, Clone, PartialEq, Eq)]
pub struct SignupInvite {
    pub code: String,
    pub uses_left: i64,
    pub expires_at: Option<String>,
    pub note: Option<String>,
    pub created_at: String,
}

/// A user a file has been shared with.
#[derive(Debug, Clone, PartialEq, Eq)]
pub struct FileShareInfo {
    pub user_id: i64,
    pub email: String,
}

/// A public download link of a file.
#[derive(Debug, Clone, PartialEq, Eq)]
pub struct FileShareLink {
    pub token: String,
    pub url: String,
    pub expires_at: Option<String>,
    pub max_downloads: Option<i64>,
    pub download_count: i64,
    pub created_at: String,
}

/// What a shared-page invite link offers.
#[derive(Debug, Clone, PartialEq, Eq)]
pub struct InvitePreview {
    pub page_title: String,
    pub role: String,
}

/// A registered passkey.
#[derive(Debug, Clone, PartialEq, Eq)]
pub struct PasskeyInfo {
    pub id: i64,
    pub label: String,
    pub created_at: String,
    pub last_used_at: Option<String>,
}

/// The answer to a sign-in, sign-up or account form, so the UI can show a
/// message when it failed.
#[derive(Debug, Clone, PartialEq, Eq)]
pub struct AuthOutcome {
    pub ok: bool,
    pub message: Option<String>,
}

/// State of the live-sync connection of a shared page.
#[derive(Debug, Clone, Copy, PartialEq, Eq, Structural)]
pub enum WsStatus {
    Connecting,
    Connected,
    Disconnected,
    Error,
}

/// Where the database and uploaded files live.
#[derive(Debug, Clone, PartialEq, Eq)]
pub struct DatabaseConfig {
    pub path: String,
    pub uploads_dir: String,
}

/// WebAuthn relying party: `rp_id` is the bare domain the browser sees,
/// `rp_origin` the full origin the app is served on.
#[derive(Debug, Clone, PartialEq, Eq)]
pub struct WebauthnConfig {
    pub rp_id: String,
    pub rp_origin: String,
}

} // verus!
