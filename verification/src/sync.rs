//! Live sync of shared pages: every accepted write bumps the page's version
//! by one; a write based on any other version is refused and the writer is
//! sent the current state instead, so no one silently overwrites a newer
//! edit.

use vstd::prelude::*;

use crate::models::PageEdit;
use crate::roles::{role_can_edit, MemberRole};
use crate::text::{int_decimal, push_i64_decimal, push_str, str_eq, string_from_chars};

verus! {

/// The stored state of a page after a write of `edit` was tried against
/// `page` (`None`: no such page): the write lands only when it is based on
/// the page's current version.
pub open spec fn applied(page: Option<PageEdit>, edit: PageEdit) -> Option<PageEdit> {
    match page {
        Some(p) => if edit.version == p.version {
            Some(PageEdit { body: edit.body, version: (p.version + 1) as i64 })
        } else {
            None
        },
        None => None,
    }
}

pub open spec fn version_fits(page: Option<PageEdit>) -> bool {
    page matches Some(p) ==> p.version < i64::MAX
}

/// A copy of a page state.
pub fn copy_page(page: &Option<PageEdit>) -> (r: Option<PageEdit>)
    ensures
        r == *page,
{
    match page {
        Some(p) => Some(p.copy()),
        None => None,
    }
}

impl PageEdit {
    /// A copy of this message.
    pub fn copy(&self) -> (r: PageEdit)
        ensures
            r == *self,
    {
        PageEdit { body: self.body.clone(), version: self.version }
    }
}

/// Compare-and-set of a page's body on its version: the new state when the
/// write lands, `None` when the page is gone or the edit is stale.
pub fn try_apply(page: &Option<PageEdit>, edit: &PageEdit) -> (r: Option<PageEdit>)
    requires
        version_fits(*page),
    ensures
        r == applied(*page, *edit),
{
    match page {
        Some(p) => {
            if edit.version == p.version {
                Some(PageEdit { body: edit.body.clone(), version: p.version + 1 })
            } else {
                None
            }
        },
        None => None,
    }
}

/// What the server sends after a client's message.
#[derive(Debug, Clone, PartialEq, Eq)]
pub enum SyncAction {
    /// The write landed: every client of the page gets the new state.
    Broadcast(PageEdit),
    /// The write was stale: only its sender gets the current state.
    ReplyToSender(PageEdit),
    /// Nothing is sent.
    Nothing,
}

/// The page state and the action after a client of role `role` sent `edit`
/// while the page was `page`.
pub open spec fn on_edit_spec(role: MemberRole, page: Option<PageEdit>, edit: PageEdit) -> (
    Option<PageEdit>,
    SyncAction,
) {
    if !role_can_edit(role) {
        (page, SyncAction::Nothing)
    } else {
        match applied(page, edit) {
            Some(n) => (Some(n), SyncAction::Broadcast(n)),
            None => match page {
                Some(cur) => (page, SyncAction::ReplyToSender(cur)),
                None => (page, SyncAction::Nothing),
            },
        }
    }
}

/// The server's decision on one edit message of a page's socket: viewers'
/// messages are ignored; an editor's write lands when it is based on the
/// current version and is then broadcast; otherwise the sender alone gets
/// the current state to reconcile with.
pub fn on_edit_message(role: MemberRole, page: &Option<PageEdit>, edit: &PageEdit) -> (r: (
    Option<PageEdit>,
    SyncAction,
))
    requires
        version_fits(*page),
    ensures
        r == on_edit_spec(role, *page, *edit),
{
    if !role.can_edit() {
        return (copy_page(page), SyncAction::Nothing);
    }
    match try_apply(page, edit) {
        Some(n) => (Some(n.copy()), SyncAction::Broadcast(n)),
        None => match page {
            Some(cur) => (copy_page(page), SyncAction::ReplyToSender(cur.copy())),
            None => (None, SyncAction::Nothing),
        },
    }
}

/// A landed write raises the version by exactly one and stores the edit's
/// body; every other message leaves the page as it was.
pub proof fn lemma_edit_effect(role: MemberRole, page: Option<PageEdit>, edit: PageEdit)
    ensures
        ({
            let (next, action) = on_edit_spec(role, page, edit);
            match action {
                SyncAction::Broadcast(n) => page matches Some(p) && next == Some(n) && (p.version
                    < i64::MAX ==> n.version == p.version + 1) && n.body == edit.body && edit.version == p.version
                    && role_can_edit(role),
                _ => next == page,
            }
        }),
{
}

/// A viewer's messages never change a page and are never answered.
pub proof fn lemma_viewer_cannot_write(page: Option<PageEdit>, edit: PageEdit)
    ensures
        on_edit_spec(MemberRole::Viewer, page, edit) == (page, SyncAction::Nothing),
{
}

/// A stale write (based on another version than the current one) is refused
/// and its sender is told the current state.
pub proof fn lemma_stale_edit_refused(role: MemberRole, cur: PageEdit, edit: PageEdit)
    requires
        role_can_edit(role),
        edit.version != cur.version,
    ensures
        on_edit_spec(role, Some(cur), edit) == (Some(cur), SyncAction::ReplyToSender(cur)),
{
}

/// Two writers that both start from the same version: the first one's write
/// lands, the second one's is refused and it is sent the first one's text,
/// so neither overwrites the other unknowingly.
pub proof fn lemma_concurrent_writers(
    r1: MemberRole,
    r2: MemberRole,
    cur: PageEdit,
    e1: PageEdit,
    e2: PageEdit,
)
    requires
        role_can_edit(r1),
        role_can_edit(r2),
        e1.version == cur.version,
        e2.version == cur.version,
        cur.version < i64::MAX,
    ensures
        ({
            let (after1, a1) = on_edit_spec(r1, Some(cur), e1);
            let (after2, a2) = on_edit_spec(r2, after1, e2);
            let won = PageEdit { body: e1.body, version: (cur.version + 1) as i64 };
            &&& a1 == SyncAction::Broadcast(won)
            &&& after2 == Some(won)
            &&& a2 == SyncAction::ReplyToSender(won)
        }),
{
}

/// An editor that rebases on what it was sent (the current state) gets its
/// next write accepted.
pub proof fn lemma_rebased_edit_lands(role: MemberRole, cur: PageEdit, body: String)
    requires
        role_can_edit(role),
        cur.version < i64::MAX,
    ensures
        on_edit_spec(role, Some(cur), PageEdit { body, version: cur.version }).1
            == SyncAction::Broadcast(PageEdit { body, version: (cur.version + 1) as i64 }),
{
}

/// The page after a run of incoming edits (each with its sender's role), and
/// how many of them were accepted.
pub open spec fn run_edits(page: Option<PageEdit>, edits: Seq<(MemberRole, PageEdit)>) -> (
    Option<PageEdit>,
    nat,
)
    decreases edits.len(),
{
    if edits.len() == 0 {
        (page, 0)
    } else {
        let (p, n) = run_edits(page, edits.drop_last());
        let (q, action) = on_edit_spec(edits.last().0, p, edits.last().1);
        (q, n + if action is Broadcast {
            1nat
        } else {
            0nat
        })
    }
}

/// Over any run of edits, a page's version counts the writes it accepted:
/// it rises by exactly one per accepted write and never otherwise.
pub proof fn lemma_version_counts_accepted_writes(cur: PageEdit, edits: Seq<(MemberRole, PageEdit)>)
    requires
        cur.version + edits.len() <= i64::MAX,
    ensures
        run_edits(Some(cur), edits).0 matches Some(p) && p.version == cur.version + run_edits(
            Some(cur),
            edits,
        ).1,
        run_edits(Some(cur), edits).1 <= edits.len(),
    decreases edits.len(),
{
    if edits.len() > 0 {
        lemma_version_counts_accepted_writes(cur, edits.drop_last());
    }
}

// ---------------------------------------------------------------------------
// Client side of a shared page's editor
// ---------------------------------------------------------------------------

/// What a shared-page editor keeps about the sync.
#[derive(Debug, Clone, PartialEq, Eq)]
pub struct EditorSync {
    /// The text in the editor.
    pub body: String,
    /// The page version the next write is based on.
    pub version: i64,
    /// The body most recently sent over the socket.
    pub last_sent_body: String,
    /// The editor shows what the server holds.
    pub synced: bool,
    /// Incoming states are applied to the editor only while this is on.
    pub live_sync: bool,
}

/// A fresh editor for a page as loaded.
pub fn editor_sync_new(body: String, version: i64) -> (s: EditorSync)
    ensures
        s.body == body,
        s.version == version,
        s.last_sent_body == body,
        s.synced,
        !s.live_sync,
{
    EditorSync { last_sent_body: body.clone(), body, version, synced: true, live_sync: false }
}

/// The editor's state after the server sent `edit`: the version is always
/// adopted (the next write must be based on it). With live sync on, the text
/// is replaced by the server's, except for the echo of our own last send
/// while we have typed on since: then the newer local text stays.
pub open spec fn received_spec(s: EditorSync, edit: PageEdit) -> EditorSync {
    if !s.live_sync {
        EditorSync { version: edit.version, ..s }
    } else if edit.body@ == s.last_sent_body@ && s.body@ != edit.body@ {
        EditorSync { version: edit.version, synced: false, ..s }
    } else {
        EditorSync { version: edit.version, body: edit.body, synced: true, ..s }
    }
}

pub fn on_server_message(s: &EditorSync, edit: &PageEdit) -> (r: EditorSync)
    ensures
        r.version == received_spec(*s, *edit).version,
        r.body@ == received_spec(*s, *edit).body@,
        r.last_sent_body@ == received_spec(*s, *edit).last_sent_body@,
        r.synced == received_spec(*s, *edit).synced,
        r.live_sync == received_spec(*s, *edit).live_sync,
{
    if !s.live_sync {
        return EditorSync {
            body: s.body.clone(),
            version: edit.version,
            last_sent_body: s.last_sent_body.clone(),
            synced: s.synced,
            live_sync: s.live_sync,
        };
    }
    let is_own_stale_echo = edit.body == s.last_sent_body && s.body != edit.body;
    if is_own_stale_echo {
        EditorSync {
            body: s.body.clone(),
            version: edit.version,
            last_sent_body: s.last_sent_body.clone(),
            synced: false,
            live_sync: s.live_sync,
        }
    } else {
        EditorSync {
            body: edit.body.clone(),
            version: edit.version,
            last_sent_body: s.last_sent_body.clone(),
            synced: true,
            live_sync: s.live_sync,
        }
    }
}

/// The message a debounced send puts on the socket, and the editor's state
/// after it: the current text based on the current version, remembered as
/// the last sent body.
pub fn prepare_send(s: &EditorSync) -> (r: (PageEdit, EditorSync))
    ensures
        r.0.body@ == s.body@,
        r.0.version == s.version,
        r.1.last_sent_body@ == s.body@,
        r.1.body@ == s.body@,
        r.1.version == s.version,
        r.1.synced == s.synced,
        r.1.live_sync == s.live_sync,
{
    let edit = PageEdit { body: s.body.clone(), version: s.version };
    let next = EditorSync {
        body: s.body.clone(),
        version: s.version,
        last_sent_body: s.body.clone(),
        synced: s.synced,
        live_sync: s.live_sync,
    };
    (edit, next)
}

/// Typing into the editor.
pub fn on_local_input(s: &EditorSync, body: String) -> (r: EditorSync)
    ensures
        r.body == body,
        r.version == s.version,
        r.last_sent_body@ == s.last_sent_body@,
        r.synced == s.synced,
        r.live_sync == s.live_sync,
{
    EditorSync {
        body,
        version: s.version,
        last_sent_body: s.last_sent_body.clone(),
        synced: s.synced,
        live_sync: s.live_sync,
    }
}

/// Every message from the server moves the editor to the server's version,
/// and local text is never replaced by the echo of an older send of ours.
pub proof fn lemma_received_keeps_newer_local_text(s: EditorSync, edit: PageEdit)
    ensures
        received_spec(s, edit).version == edit.version,
        s.live_sync && edit.body@ == s.last_sent_body@ && s.body@ != edit.body@ ==> received_spec(s, edit).body
            == s.body && !received_spec(s, edit).synced,
        !s.live_sync ==> received_spec(s, edit).body == s.body,
{
}


/// With live sync on, every server message but the stale echo of our own
/// last send replaces the editor's text with the server's and shows the
/// editor as synced, whatever it showed before; nothing but the version,
/// the text and the indicator ever changes, and with live sync off only the
/// version does.
pub proof fn lemma_received_server_state_applies(s: EditorSync, edit: PageEdit)
    ensures
        s.live_sync && !(edit.body@ == s.last_sent_body@ && s.body@ != edit.body@) ==> received_spec(
            s,
            edit,
        ).body == edit.body && received_spec(s, edit).synced,
        received_spec(s, edit).last_sent_body == s.last_sent_body,
        received_spec(s, edit).live_sync == s.live_sync,
        !s.live_sync ==> received_spec(s, edit).synced == s.synced,
{
}

/// The WebSocket URL of a page's live sync: `wss` when the page was loaded
/// over `https:`, `ws` otherwise.
pub fn shared_page_ws_url(protocol: &str, host: &str, page_id: i64) -> (r: String)
    ensures
        r@ == (if protocol@ == "https:"@ {
            "wss"@
        } else {
            "ws"@
        }) + "://"@ + host@ + "/ws/page/"@ + int_decimal(page_id as int),
{
    let mut v: Vec<char> = Vec::new();
    if str_eq(protocol, "https:") {
        push_str(&mut v, "wss");
    } else {
        push_str(&mut v, "ws");
    }
    push_str(&mut v, "://");
    push_str(&mut v, host);
    push_str(&mut v, "/ws/page/");
    push_i64_decimal(&mut v, page_id);
    string_from_chars(v.as_slice())
}

/// The message of an upload that the server answered with a failure status.
pub fn upload_failed_message(status: u16) -> (r: String)
    ensures
        r@ == "upload failed (HTTP "@ + int_decimal(status as int) + ")"@,
{
    let mut v: Vec<char> = Vec::new();
    push_str(&mut v, "upload failed (HTTP ");
    push_i64_decimal(&mut v, status as i64);
    push_str(&mut v, ")");
    string_from_chars(v.as_slice())
}

} // verus!
