//! Passkeys: labels, the WebAuthn user handle and the sign-in checks.

use vstd::prelude::*;

use crate::text::{prefixed, srv, to_owned_string, trim, trim_string};

verus! {

/// A passkey's label as saved: trimmed, `Passkey` when blank.
pub fn passkey_label(label: &str) -> (r: String)
    ensures
        trim(label@).len() == 0 ==> r@ == "Passkey"@,
        trim(label@).len() != 0 ==> r@ == trim(label@),
{
    let t = trim_string(label);
    if t.as_str().is_empty() {
        to_owned_string("Passkey")
    } else {
        t
    }
}

/// A passkey's label as listed: `Passkey` when none is stored.
pub fn listed_label(label: Option<String>) -> (r: String)
    ensures
        match label {
            Some(l) => r == l,
            None => r@ == "Passkey"@,
        },
{
    match label {
        Some(l) => l,
        None => to_owned_string("Passkey"),
    }
}

/// The WebAuthn user handle of a user: its id, as a 128-bit value.
pub fn user_handle(user_id: i64) -> (h: u128)
    ensures
        h == user_id as u128,
{
    user_id as u128
}

/// The user id back from a WebAuthn user handle.
pub fn user_id_from_handle(h: u128) -> (id: i64)
    ensures
        id == h as i64,
{
    h as i64
}

/// Reading a user handle back gives the id it was made from.
pub proof fn lemma_user_handle_roundtrip(user_id: i64)
    ensures
        (user_id as u128) as i64 == user_id,
{
    assert((user_id as u128) as i64 == user_id) by (bit_vector);
}

/// A passkey sign-in is refused for a locked account, and for an unknown
/// one (no lock flag found).
pub fn check_passkey_account(locked: Option<bool>) -> (r: Result<(), String>)
    ensures
        r is Ok <==> locked == Some(false),
        r matches Err(m) ==> m@ == prefixed("auth"@, "this account has been locked"@),
{
    match locked {
        Some(false) => Ok(()),
        _ => Err(srv("auth", "this account has been locked")),
    }
}

/// A registration is finished only by the user who started it.
pub fn check_registration_owner(reg_user_id: i64, user_id: i64) -> (r: Result<(), String>)
    ensures
        r is Ok <==> reg_user_id == user_id,
        r matches Err(m) ==> m@ == prefixed("session"@, "user mismatch"@),
{
    if reg_user_id != user_id {
        return Err(srv("session", "user mismatch"));
    }
    Ok(())
}

/// A sign-in needs at least one stored passkey of the account.
pub fn check_has_passkeys(count: usize) -> (r: Result<(), String>)
    ensures
        r is Ok <==> count > 0,
        r matches Err(m) ==> m@ == prefixed("auth"@, "no passkeys registered for that account"@),
{
    if count == 0 {
        return Err(srv("auth", "no passkeys registered for that account"));
    }
    Ok(())
}

} // verus!
