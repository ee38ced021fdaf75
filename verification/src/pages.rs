//! Shared pages: roles of members, invites and who may change what.

use vstd::prelude::*;

use crate::models::{InvitePreview, SharedPage, SharedPageMember};
use crate::roles::{role_can_edit, role_of_name, MemberRole};
use crate::text::{str_eq, str_less, str_lt, to_owned_string};

verus! {

/// A role as stored; anything else is a corrupt row.
pub fn parse_role(s: &str) -> (r: Result<MemberRole, String>)
    ensures
        match role_of_name(s@) {
            Some(role) => r == Ok::<MemberRole, String>(role),
            None => r matches Err(m) && m@ == "bad role in db"@,
        },
{
    match MemberRole::parse(s) {
        Some(role) => Ok(role),
        None => Err(to_owned_string("bad role in db")),
    }
}

/// A shared page as listed for a member, from its row.
pub fn page_from_row(
    id: i64,
    title: String,
    body: String,
    version: i64,
    role: &str,
    updated_at: String,
) -> (r: Result<SharedPage, String>)
    ensures
        match role_of_name(role@) {
            Some(my_role) => r matches Ok(p) && p == (SharedPage {
                id,
                title,
                body,
                version,
                my_role,
                updated_at,
            }),
            None => r matches Err(m) && m@ == "bad role in db"@,
        },
{
    let my_role = parse_role(role)?;
    Ok(SharedPage { id, title, body, version, my_role, updated_at })
}

/// A member of a page, from its row.
pub fn member_from_row(user_id: i64, email: String, role: &str) -> (r: Result<
    SharedPageMember,
    String,
>)
    ensures
        match role_of_name(role@) {
            Some(rl) => r matches Ok(m) && m == (SharedPageMember { user_id, email, role: rl }),
            None => r matches Err(m) && m@ == "bad role in db"@,
        },
{
    let rl = parse_role(role)?;
    Ok(SharedPageMember { user_id, email, role: rl })
}

/// Renaming a page is open to its owner and editors.
pub fn may_rename(role: Option<MemberRole>) -> (b: bool)
    ensures
        b == (role matches Some(r) && role_can_edit(r)),
{
    match role {
        Some(r) => r.can_edit(),
        None => false,
    }
}

/// The roles an invite link may grant.
pub open spec fn invitable_role(role: Seq<char>) -> bool {
    role == "editor"@ || role == "viewer"@
}

/// An invite link may grant only the editor or viewer role.
pub fn check_invite_role(role: &str) -> (r: Result<(), String>)
    ensures
        r is Ok <==> invitable_role(role@),
        r matches Err(m) ==> m@ == "role must be editor or viewer"@,
{
    if !str_eq(role, "editor") && !str_eq(role, "viewer") {
        return Err(to_owned_string("role must be editor or viewer"));
    }
    Ok(())
}

/// Only a page's owner creates invites.
pub fn check_invite_creator(is_owner: bool) -> (r: Result<(), String>)
    ensures
        r is Ok <==> is_owner,
        r matches Err(m) ==> m@ == "only the owner can create invites"@,
{
    if !is_owner {
        return Err(to_owned_string("only the owner can create invites"));
    }
    Ok(())
}

/// An expiry (a `YYYY-MM-DD HH:MM:SS` text) has passed when it sorts before
/// `now`.
pub open spec fn expired(expires_at: Option<Seq<char>>, now: Seq<char>) -> bool {
    expires_at matches Some(e) && str_lt(e, now)
}

pub open spec fn opt_view(s: Option<String>) -> Option<Seq<char>> {
    match s {
        Some(x) => Some(x@),
        None => None,
    }
}

/// An invite link may be previewed or used until it expires.
pub fn check_invite_expiry(expires_at: &Option<String>, now: &str) -> (r: Result<(), String>)
    ensures
        r is Err <==> expired(opt_view(*expires_at), now@),
        r matches Err(m) ==> m@ == "invite has expired"@,
{
    if let Some(exp) = expires_at {
        if str_less(exp.as_str(), now) {
            return Err(to_owned_string("invite has expired"));
        }
    }
    Ok(())
}

/// The preview of an invite: the page's title and the role it grants,
/// unless it has expired.
pub fn invite_preview(page_title: String, role: String, expires_at: &Option<String>, now: &str) -> (r:
    Result<InvitePreview, String>)
    ensures
        expired(opt_view(*expires_at), now@) <==> r is Err,
        r matches Ok(p) ==> p == (InvitePreview { page_title, role }),
        r matches Err(m) ==> m@ == "invite has expired"@,
{
    check_invite_expiry(expires_at, now)?;
    Ok(InvitePreview { page_title, role })
}

/// Removing a member: only the owner may, and not themself.
pub fn remove_member_check(is_owner: bool, requester_id: i64, user_id: i64) -> (r: Result<
    (),
    String,
>)
    ensures
        r is Ok <==> is_owner && user_id != requester_id,
        !is_owner ==> (r matches Err(m) && m@ == "only the owner can remove members"@),
        is_owner && user_id == requester_id ==> (r matches Err(m) && m@
            == "owner cannot remove themself"@),
{
    if !is_owner {
        return Err(to_owned_string("only the owner can remove members"));
    }
    if user_id == requester_id {
        return Err(to_owned_string("owner cannot remove themself"));
    }
    Ok(())
}

/// The error when a rename changed no row.
pub fn rename_refused() -> (m: String)
    ensures
        m@ == "page not found or not permitted"@,
{
    to_owned_string("page not found or not permitted")
}

/// The error when a delete changed no row.
pub fn delete_refused() -> (m: String)
    ensures
        m@ == "page not found or not owner"@,
{
    to_owned_string("page not found or not owner")
}

} // verus!
