//! What admins may do to accounts and sign-up invites.

use vstd::prelude::*;

use crate::auth::{contains_at_sign, has_at_sign, normalize_email, normalized_email};
use crate::text::{byte_len, utf8_len, chars_of, is_ascii_alphanumeric, prefixed, srv, to_owned_string, trim, trim_string};
use crate::tokens::gen_temp_password;

verus! {

/// A new sign-up invite needs at least one use.
pub fn check_invite_uses(uses_left: i64) -> (r: Result<(), String>)
    ensures
        r is Ok <==> uses_left >= 1,
        r matches Err(m) ==> m@ == "uses must be at least 1"@,
{
    if uses_left < 1 {
        return Err(to_owned_string("uses must be at least 1"));
    }
    Ok(())
}

/// An admin cannot lock their own account.
pub fn check_set_locked(admin_id: i64, user_id: i64, locked: bool) -> (r: Result<(), String>)
    ensures
        r is Err <==> (user_id == admin_id && locked),
        r matches Err(m) ==> m@ == prefixed("user"@, "cannot lock your own account"@),
{
    if user_id == admin_id && locked {
        return Err(srv("user", "cannot lock your own account"));
    }
    Ok(())
}

/// An admin cannot take their own admin rights away.
pub fn check_set_admin(admin_id: i64, user_id: i64, is_admin: bool) -> (r: Result<(), String>)
    ensures
        r is Err <==> (user_id == admin_id && !is_admin),
        r matches Err(m) ==> m@ == prefixed("user"@, "cannot remove your own admin rights"@),
{
    if user_id == admin_id && !is_admin {
        return Err(srv("user", "cannot remove your own admin rights"));
    }
    Ok(())
}

/// An admin cannot delete their own account.
pub fn check_delete_user(admin_id: i64, user_id: i64) -> (r: Result<(), String>)
    ensures
        r is Err <==> user_id == admin_id,
        r matches Err(m) ==> m@ == prefixed("user"@, "cannot delete your own account"@),
{
    if user_id == admin_id {
        return Err(srv("user", "cannot delete your own account"));
    }
    Ok(())
}

/// The account an admin creates: the normalized email (non-empty, with an
/// `@`) and the password to set (the trimmed given one, at least 8 bytes,
/// or a fresh temporary one when none or a blank one was given). It is
/// refused exactly for an invalid email, or a non-blank password whose
/// trimmed form is shorter than 8 bytes.
pub fn admin_new_user_precheck(email: &str, password: Option<String>) -> (r: Result<
    (String, String),
    String,
>)
    ensures
        r is Err <==> ({
            let e = normalized_email(email@);
            e.len() == 0 || !has_at_sign(e) || (password matches Some(p) && trim(p@).len() != 0
                && utf8_len(trim(p@)) < 8)
        }),
        ({
            let e = normalized_email(email@);
            match r {
                Ok((a, pw)) => a@ == e && e.len() > 0 && has_at_sign(e) && match password {
                    Some(p) => if trim(p@).len() == 0 {
                        pw@.len() == 12 && forall|i: int|
                            0 <= i < 12 ==> is_ascii_alphanumeric(#[trigger] pw@[i])
                    } else {
                        pw@ == trim(p@) && utf8_len(pw@) >= 8
                    },
                    None => pw@.len() == 12 && forall|i: int|
                        0 <= i < 12 ==> is_ascii_alphanumeric(#[trigger] pw@[i]),
                },
                Err(m) => if e.len() == 0 || !has_at_sign(e) {
                    m@ == prefixed("input"@, "a valid email address is required"@)
                } else {
                    password matches Some(p) && trim(p@).len() != 0 && utf8_len(trim(p@))
                        < 8 && m@ == prefixed(
                        "input"@,
                        "password must be at least 8 characters"@,
                    )
                },
            }
        }),
{
    let e = normalize_email(email);
    let ev = chars_of(e.as_str());
    if ev.len() == 0 || !contains_at_sign(ev.as_slice()) {
        return Err(srv("input", "a valid email address is required"));
    }
    let raw = match password {
        Some(p) => {
            let t = trim_string(p.as_str());
            if t.as_str().is_empty() {
                gen_temp_password()
            } else {
                if byte_len(t.as_str()) < 8 {
                    return Err(srv("input", "password must be at least 8 characters"));
                }
                t
            }
        },
        None => gen_temp_password(),
    };
    Ok((e, raw))
}

/// A display name given by an admin: trimmed, absent when blank.
pub fn clean_display_name(name: Option<String>) -> (r: Option<String>)
    ensures
        match name {
            Some(n) => if trim(n@).len() == 0 {
                r is None
            } else {
                r matches Some(c) && c@ == trim(n@)
            },
            None => r is None,
        },
{
    match name {
        Some(n) => {
            let t = trim_string(n.as_str());
            if t.as_str().is_empty() {
                None
            } else {
                Some(t)
            }
        },
        None => None,
    }
}

} // verus!
