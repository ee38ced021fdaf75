//! The passkey ceremonies, run with webauthn-rs: registering a passkey for
//! the signed-in user, and signing in with a passkey that the browser offers
//! (a discoverable credential, found without a user name).

use vstd::prelude::*;

use webauthn_rs::prelude::{
    AuthenticationResult, CreationChallengeResponse, CredentialID, DiscoverableAuthentication,
    DiscoverableKey, Passkey, PasskeyRegistration, PublicKeyCredential, RegisterPublicKeyCredential,
    RequestChallengeResponse, Url, Uuid, Webauthn, WebauthnBuilder, WebauthnError,
};

use crate::models::AuthUser;
use crate::passkeys::{check_has_passkeys, passkey_label, user_handle, user_id_from_handle};
use crate::text::{prefixed, srv, trim};

verus! {

#[verifier::external_type_specification]
#[verifier::external_body]
pub struct ExWebauthn(Webauthn);

#[verifier::external_type_specification]
#[verifier::external_body]
pub struct ExPasskey(Passkey);

#[verifier::external_type_specification]
#[verifier::external_body]
pub struct ExPasskeyRegistration(PasskeyRegistration);

#[verifier::external_type_specification]
#[verifier::external_body]
pub struct ExCreationChallengeResponse(CreationChallengeResponse);

#[verifier::external_type_specification]
#[verifier::external_body]
pub struct ExRegisterPublicKeyCredential(RegisterPublicKeyCredential);

#[verifier::external_type_specification]
#[verifier::external_body]
pub struct ExDiscoverableAuthentication(DiscoverableAuthentication);

#[verifier::external_type_specification]
#[verifier::external_body]
pub struct ExRequestChallengeResponse(RequestChallengeResponse);

#[verifier::external_type_specification]
#[verifier::external_body]
pub struct ExPublicKeyCredential(PublicKeyCredential);

#[verifier::external_type_specification]
#[verifier::external_body]
pub struct ExDiscoverableKey(DiscoverableKey);

#[verifier::external_type_specification]
#[verifier::external_body]
pub struct ExAuthenticationResult(AuthenticationResult);

#[verifier::external_type_specification]
#[verifier::external_body]
pub struct ExCredentialID(CredentialID);

#[verifier::external_type_specification]
#[verifier::external_body]
pub struct ExWebauthnError(WebauthnError);

#[verifier::external_type_specification]
#[verifier::external_body]
pub struct ExUrl(Url);

// ---------------------------------------------------------------------------
// Names for what webauthn-rs computes
// ---------------------------------------------------------------------------

/// `w` was configured with an authenticator timeout of at most `u32::MAX`
/// milliseconds; webauthn-rs panics when it starts a ceremony otherwise.
pub uninterp spec fn timeout_fits(w: Webauthn) -> bool;

/// The host of a URL when it is a domain (url's `Url::domain`; `None` for an
/// IP address or no host).
pub uninterp spec fn url_domain(u: Url) -> Option<Seq<char>>;

/// What a registration's creation request carries about the user: the
/// handle (the UUID's 128 bits), the user name and the display name.
pub uninterp spec fn creation_user(ccr: CreationChallengeResponse) -> (u128, Seq<char>, Seq<char>);

/// The credential ids a registration's creation request excludes, in order
/// (`None` when it excludes none at all).
pub uninterp spec fn creation_excluded(ccr: CreationChallengeResponse) -> Option<Seq<CredentialID>>;

/// Whether webauthn-rs accepts the browser's new credential `reg` for the
/// registration `state` (`finish_passkey_registration`).
pub uninterp spec fn registration_accepted(w: Webauthn, reg: RegisterPublicKeyCredential, state: PasskeyRegistration) -> bool;

/// The passkey an accepted registration yields.
pub uninterp spec fn registered_passkey(w: Webauthn, reg: RegisterPublicKeyCredential, state: PasskeyRegistration) -> Passkey;

/// The user handle a sign-in's credential carries, if it carries one that is
/// a UUID (`identify_discoverable_authentication`).
pub uninterp spec fn credential_user_handle(cred: PublicKeyCredential) -> Option<u128>;

/// Whether webauthn-rs accepts the browser's assertion `cred` for the
/// sign-in `state` against the account's `keys`
/// (`finish_discoverable_authentication`).
pub uninterp spec fn login_accepted(
    w: Webauthn,
    cred: PublicKeyCredential,
    state: DiscoverableAuthentication,
    keys: Seq<DiscoverableKey>,
) -> bool;

/// The result of an accepted sign-in.
pub uninterp spec fn login_result(
    w: Webauthn,
    cred: PublicKeyCredential,
    state: DiscoverableAuthentication,
    keys: Seq<DiscoverableKey>,
) -> AuthenticationResult;

/// A passkey's credential id (`Passkey::cred_id`).
pub uninterp spec fn cred_id_of(pk: Passkey) -> CredentialID;

/// A passkey as a discoverable key (`DiscoverableKey::from`).
pub uninterp spec fn discoverable_key_of(pk: Passkey) -> DiscoverableKey;

/// Whether a sign-in result is for this passkey (their credential ids are
/// equal; `Passkey::update_credential` answers `Some` exactly then).
pub uninterp spec fn result_is_for(pk: Passkey, res: AuthenticationResult) -> bool;

/// The passkey with its counter and backup flags brought up to date from a
/// sign-in result that is for it.
pub uninterp spec fn updated_passkey(pk: Passkey, res: AuthenticationResult) -> Passkey;

/// Whether serde_json parses `json` as the browser's new credential.
pub uninterp spec fn register_json_parses(json: Seq<char>) -> bool;

/// The new credential that `json` parses to.
pub uninterp spec fn register_credential_of(json: Seq<char>) -> RegisterPublicKeyCredential;

/// Whether serde_json parses `json` as a sign-in assertion.
pub uninterp spec fn login_json_parses(json: Seq<char>) -> bool;

/// The assertion that `json` parses to.
pub uninterp spec fn login_credential_of(json: Seq<char>) -> PublicKeyCredential;

/// Whether serde_json parses `json` as a stored passkey.
pub uninterp spec fn passkey_json_parses(json: Seq<char>) -> bool;

/// The passkey that `json` parses to.
pub uninterp spec fn passkey_of(json: Seq<char>) -> Passkey;

/// Whether `rp_id` may serve the origin whose domain is `domain`: the domain
/// is `rp_id` or ends in `.` and `rp_id` (webauthn-rs's `WebauthnBuilder::new`
/// check).
pub open spec fn relying_party_ok(rp_id: Seq<char>, domain: Option<Seq<char>>) -> bool {
    match domain {
        Some(d) => d == rp_id || (d.len() >= rp_id.len() + 1 && d.subrange(
            d.len() - rp_id.len() - 1,
            d.len() as int,
        ) == seq!['.'] + rp_id),
        None => false,
    }
}

// ---------------------------------------------------------------------------
// Calls into webauthn-rs and serde_json
// ---------------------------------------------------------------------------

/// webauthn-rs `WebauthnBuilder::new(rp_id, rp_origin)`, named `rp_name`,
/// then `build()`. Stated: `new` refuses exactly a relying party that may
/// not serve the origin's domain (`build` never fails), and the timeout it
/// is built with is webauthn-rs's default (`DEFAULT_AUTHENTICATOR_TIMEOUT`,
/// 300 s), which fits.
#[verifier::external_body]
fn new_webauthn(rp_id: &str, rp_origin: &Url, rp_name: &str) -> (r: Result<Webauthn, WebauthnError>)
    ensures
        r is Ok <==> relying_party_ok(rp_id@, url_domain(*rp_origin)),
        r matches Ok(w) ==> timeout_fits(w),
{
    WebauthnBuilder::new(rp_id, rp_origin)?.rp_name(rp_name).build()
}

/// webauthn-rs `Webauthn::start_passkey_registration`, with the user handle
/// as a UUID made from its 128 bits (`Uuid::from_u128`). Only a `w` whose
/// timeout fits is accepted (it panics otherwise). Stated: it fails exactly
/// when the user name or display name is empty, and the creation request
/// carries the handle, both names and the excluded ids as given. Not
/// stated: the challenge (random) and the registration state.
#[verifier::external_body]
fn webauthn_start_registration(
    w: &Webauthn,
    handle: u128,
    user_name: &str,
    display_name: &str,
    exclude: Vec<CredentialID>,
) -> (r: Result<(CreationChallengeResponse, PasskeyRegistration), WebauthnError>)
    requires
        timeout_fits(*w),
    ensures
        r is Ok <==> (user_name@.len() > 0 && display_name@.len() > 0),
        r matches Ok((ccr, _)) ==> creation_user(ccr) == (handle, user_name@, display_name@)
            && creation_excluded(ccr) == Some(exclude@),
{
    w.start_passkey_registration(Uuid::from_u128(handle), user_name, display_name, Some(exclude))
}

/// webauthn-rs `Webauthn::finish_passkey_registration`: verifies the
/// browser's new credential against the registration state. Stated: success
/// and the passkey are functions of the three arguments (named). Not
/// stated: which credentials it accepts.
#[verifier::external_body]
fn webauthn_finish_registration(
    w: &Webauthn,
    reg: &RegisterPublicKeyCredential,
    state: &PasskeyRegistration,
) -> (r: Result<Passkey, WebauthnError>)
    ensures
        r is Ok == registration_accepted(*w, *reg, *state),
        r matches Ok(pk) ==> pk == registered_passkey(*w, *reg, *state),
{
    w.finish_passkey_registration(reg, state)
}

/// webauthn-rs `Webauthn::start_discoverable_authentication`. Only a `w`
/// whose timeout fits is accepted (it panics otherwise). Stated: it
/// succeeds (it passes its own user-verification policy, so the builder
/// has nothing to refuse). Not stated: the challenge (random).
#[verifier::external_body]
fn webauthn_start_discoverable(w: &Webauthn) -> (r: Result<(RequestChallengeResponse, DiscoverableAuthentication), WebauthnError>)
    requires
        timeout_fits(*w),
    ensures
        r is Ok,
{
    w.start_discoverable_authentication()
}

/// webauthn-rs `Webauthn::identify_discoverable_authentication`: the user
/// handle the credential carries, as its 128 bits (`Uuid::as_u128`), or an
/// error when it carries none that is a UUID.
#[verifier::external_body]
fn webauthn_identify(w: &Webauthn, cred: &PublicKeyCredential) -> (r: Result<u128, WebauthnError>)
    ensures
        match r {
            Ok(h) => credential_user_handle(*cred) == Some(h),
            Err(_) => credential_user_handle(*cred) is None,
        },
{
    w.identify_discoverable_authentication(cred).map(|(user, _)| user.as_u128())
}

/// webauthn-rs `Webauthn::finish_discoverable_authentication`: verifies the
/// browser's assertion against the state and the account's keys. Stated:
/// success and the result are functions of the arguments (named). Not
/// stated: which assertions it accepts.
#[verifier::external_body]
fn webauthn_finish_discoverable(
    w: &Webauthn,
    cred: &PublicKeyCredential,
    state: DiscoverableAuthentication,
    keys: &[DiscoverableKey],
) -> (r: Result<AuthenticationResult, WebauthnError>)
    ensures
        r is Ok == login_accepted(*w, *cred, state, keys@),
        r matches Ok(res) ==> res == login_result(*w, *cred, state, keys@),
{
    w.finish_discoverable_authentication(cred, state, keys)
}

/// webauthn-rs `Passkey::cred_id`, copied out.
#[verifier::external_body]
fn passkey_cred_id(pk: &Passkey) -> (r: CredentialID)
    ensures
        r == cred_id_of(*pk),
{
    pk.cred_id().clone()
}

/// webauthn-rs `DiscoverableKey::from(&Passkey)`.
#[verifier::external_body]
fn discoverable_key(pk: &Passkey) -> (r: DiscoverableKey)
    ensures
        r == discoverable_key_of(*pk),
{
    DiscoverableKey::from(pk)
}

/// webauthn-rs `Passkey::update_credential`: `None`, leaving the passkey as
/// it is, when the result is not for this passkey; else `Some` of whether
/// its counter or backup flags changed, which are updated in place.
#[verifier::external_body]
fn passkey_update_credential(pk: &mut Passkey, res: &AuthenticationResult) -> (r: Option<bool>)
    ensures
        r is Some == result_is_for(*old(pk), *res),
        r is Some ==> *final(pk) == updated_passkey(*old(pk), *res),
        r is None ==> *final(pk) == *old(pk),
{
    pk.update_credential(res)
}

/// The `Display` text of a webauthn-rs error.
#[verifier::external_body]
fn webauthn_error_text(e: &WebauthnError) -> String {
    e.to_string()
}

/// serde_json `from_str` of the browser's new credential, or the error's
/// text.
#[verifier::external_body]
fn register_json(json: &str) -> (r: Result<RegisterPublicKeyCredential, String>)
    ensures
        r is Ok == register_json_parses(json@),
        r matches Ok(c) ==> c == register_credential_of(json@),
{
    serde_json::from_str(json).map_err(|e| e.to_string())
}

/// serde_json `from_str` of a sign-in assertion, or the error's text.
#[verifier::external_body]
fn login_json(json: &str) -> (r: Result<PublicKeyCredential, String>)
    ensures
        r is Ok == login_json_parses(json@),
        r matches Ok(c) ==> c == login_credential_of(json@),
{
    serde_json::from_str(json).map_err(|e| e.to_string())
}

/// serde_json `from_str` of a stored passkey, or the error's text.
#[verifier::external_body]
fn passkey_json(json: &str) -> (r: Result<Passkey, String>)
    ensures
        r is Ok == passkey_json_parses(json@),
        r matches Ok(p) ==> p == passkey_of(json@),
{
    serde_json::from_str(json).map_err(|e| e.to_string())
}

// ---------------------------------------------------------------------------
// The ceremonies
// ---------------------------------------------------------------------------

/// A webauthn-rs failure as reported: `webauthn: ` and its text.
pub open spec fn webauthn_failure(m: Seq<char>) -> bool {
    exists|t: Seq<char>| m == #[trigger] prefixed("webauthn"@, t)
}

/// A JSON failure as reported: `json: ` and its text.
pub open spec fn json_failure(m: Seq<char>) -> bool {
    exists|t: Seq<char>| m == #[trigger] prefixed("json"@, t)
}

fn failure_of(e: &WebauthnError) -> (m: String)
    ensures
        webauthn_failure(m@),
{
    let t = webauthn_error_text(e);
    let m = srv("webauthn", t.as_str());
    assert(m@ == prefixed("webauthn"@, t@));
    m
}

fn json_failure_of(t: String) -> (m: String)
    ensures
        json_failure(m@),
{
    let m = srv("json", t.as_str());
    assert(m@ == prefixed("json"@, t@));
    m
}

/// The app's relying party: `rp_id` at `rp_origin`, named `SyncNote`, with
/// webauthn-rs's default timeout; refused when `rp_id` may not serve the
/// origin's domain.
pub fn passkey_service(rp_id: &str, rp_origin: &Url) -> (r: Result<Webauthn, String>)
    ensures
        r is Ok <==> relying_party_ok(rp_id@, url_domain(*rp_origin)),
        r matches Ok(w) ==> timeout_fits(w),
        r matches Err(m) ==> webauthn_failure(m@),
{
    match new_webauthn(rp_id, rp_origin, "SyncNote") {
        Ok(w) => Ok(w),
        Err(e) => Err(failure_of(&e)),
    }
}

/// The browser's new credential from its JSON.
pub fn registration_credential(json: &str) -> (r: Result<RegisterPublicKeyCredential, String>)
    ensures
        r is Ok == register_json_parses(json@),
        r matches Ok(c) ==> c == register_credential_of(json@),
        r matches Err(m) ==> json_failure(m@),
{
    match register_json(json) {
        Ok(c) => Ok(c),
        Err(t) => Err(json_failure_of(t)),
    }
}

/// A sign-in assertion from its JSON.
pub fn login_credential(json: &str) -> (r: Result<PublicKeyCredential, String>)
    ensures
        r is Ok == login_json_parses(json@),
        r matches Ok(c) ==> c == login_credential_of(json@),
        r matches Err(m) ==> json_failure(m@),
{
    match login_json(json) {
        Ok(c) => Ok(c),
        Err(t) => Err(json_failure_of(t)),
    }
}

/// The stored passkeys, in order, with their row ids.
pub open spec fn stored_passkeys_of(rows: Seq<(i64, String)>) -> Seq<(i64, Passkey)>
    decreases rows.len(),
{
    if rows.len() == 0 {
        Seq::empty()
    } else if passkey_json_parses(rows.last().1@) {
        stored_passkeys_of(rows.drop_last()).push((rows.last().0, passkey_of(rows.last().1@)))
    } else {
        stored_passkeys_of(rows.drop_last())
    }
}

/// Loading stored rows is loading their parts one after the other: every
/// row is kept or skipped on its own, in order.
pub proof fn lemma_stored_passkeys_concat(a: Seq<(i64, String)>, b: Seq<(i64, String)>)
    ensures
        stored_passkeys_of(a + b) == stored_passkeys_of(a) + stored_passkeys_of(b),
    decreases b.len(),
{
    if b.len() == 0 {
        assert(a + b =~= a);
        assert(stored_passkeys_of(a) + stored_passkeys_of(b) =~= stored_passkeys_of(a));
    } else {
        lemma_stored_passkeys_concat(a, b.drop_last());
        assert((a + b).drop_last() =~= a + b.drop_last());
        assert((a + b).last() == b.last());
        let x = (b.last().0, passkey_of(b.last().1@));
        assert(stored_passkeys_of(a) + stored_passkeys_of(b.drop_last()).push(x) =~= (
        stored_passkeys_of(a) + stored_passkeys_of(b.drop_last())).push(x));
    }
}

/// One stored row gives its id with the passkey its JSON parses to, or
/// nothing when the JSON does not parse. With `lemma_stored_passkeys_concat`
/// this fixes what every list of rows loads.
pub proof fn lemma_stored_passkeys_single(row: (i64, String))
    ensures
        stored_passkeys_of(seq![row]) == if passkey_json_parses(row.1@) {
            seq![(row.0, passkey_of(row.1@))]
        } else {
            Seq::<(i64, Passkey)>::empty()
        },
{
    let one = seq![row];
    assert(one.drop_last() =~= Seq::<(i64, String)>::empty());
    assert(one.last() == row);
    assert(stored_passkeys_of(one.drop_last()) == Seq::<(i64, Passkey)>::empty());
    assert(Seq::<(i64, Passkey)>::empty().push((row.0, passkey_of(row.1@))) =~= seq![
        (row.0, passkey_of(row.1@)),
    ]);
}

/// Every row whose JSON parses is loaded, with its id and its passkey, and
/// the result holds no more passkeys than there are rows.
pub proof fn lemma_stored_passkeys_keep_every_parsing_row(rows: Seq<(i64, String)>)
    ensures
        forall|i: int|
            0 <= i < rows.len() && passkey_json_parses(#[trigger] rows[i].1@) ==> stored_passkeys_of(
                rows,
            ).contains((rows[i].0, passkey_of(rows[i].1@))),
        stored_passkeys_of(rows).len() <= rows.len(),
    decreases rows.len(),
{
    if rows.len() > 0 {
        let init = rows.drop_last();
        lemma_stored_passkeys_keep_every_parsing_row(init);
        let m = stored_passkeys_of(init);
        assert forall|i: int|
            0 <= i < rows.len() && passkey_json_parses(#[trigger] rows[i].1@) implies stored_passkeys_of(
                rows,
            ).contains((rows[i].0, passkey_of(rows[i].1@))) by {
            let x = (rows[i].0, passkey_of(rows[i].1@));
            if i == rows.len() - 1 {
                assert(stored_passkeys_of(rows) == m.push(x));
                assert(m.push(x)[m.len() as int] == x);
            } else {
                assert(init[i] == rows[i]);
                assert(m.contains(x));
                let k = choose|k: int| 0 <= k < m.len() && m[k] == x;
                if passkey_json_parses(rows.last().1@) {
                    let y = (rows.last().0, passkey_of(rows.last().1@));
                    assert(m.push(y)[k] == x);
                }
            }
        }
    }
}

/// The passkeys of stored rows (id, JSON) that still parse; the others are
/// skipped.
pub fn stored_passkeys(rows: &Vec<(i64, String)>) -> (r: Vec<(i64, Passkey)>)
    ensures
        r@ == stored_passkeys_of(rows@),
{
    let mut out: Vec<(i64, Passkey)> = Vec::new();
    let mut i: usize = 0;
    while i < rows.len()
        invariant
            i <= rows@.len(),
            out@ == stored_passkeys_of(rows@.subrange(0, i as int)),
        decreases rows.len() - i,
    {
        assert(rows@.subrange(0, i + 1).drop_last() =~= rows@.subrange(0, i as int));
        match passkey_json(rows[i].1.as_str()) {
            Ok(pk) => out.push((rows[i].0, pk)),
            Err(_) => {},
        }
        i = i + 1;
    }
    assert(rows@.subrange(0, rows@.len() as int) =~= rows@);
    out
}

/// What a passkey is registered under: the user's handle, the email as the
/// user name, and the display name (the email when there is none).
pub fn registration_identity(user: &AuthUser) -> (r: (u128, String, String))
    ensures
        r.0 == user.id as u128,
        r.1 == user.email,
        match user.display_name {
            Some(n) => r.2 == n,
            None => r.2 == user.email,
        },
{
    let display = match &user.display_name {
        Some(n) => n.clone(),
        None => user.email.clone(),
    };
    (user_handle(user.id), user.email.clone(), display)
}

/// The credentials a new registration excludes: those of the passkeys the
/// user already has, in order.
pub fn excluded_credentials(existing: &Vec<Passkey>) -> (r: Vec<CredentialID>)
    ensures
        r@ == existing@.map_values(|p: Passkey| cred_id_of(p)),
{
    let mut exclude: Vec<CredentialID> = Vec::new();
    let mut i: usize = 0;
    while i < existing.len()
        invariant
            i <= existing@.len(),
            exclude@ == existing@.subrange(0, i as int).map_values(|p: Passkey| cred_id_of(p)),
        decreases existing.len() - i,
    {
        exclude.push(passkey_cred_id(&existing[i]));
        i = i + 1;
        assert(exclude@ =~= existing@.subrange(0, i as int).map_values(|p: Passkey| cred_id_of(p)));
    }
    assert(existing@.subrange(0, existing@.len() as int) =~= existing@);
    exclude
}

/// Starts registering a passkey for `user`: webauthn-rs is handed the
/// user's `registration_identity` and its `excluded_credentials`. The
/// challenge goes to the browser, the state into the session.
pub fn start_registration(w: &Webauthn, user: &AuthUser, existing: &Vec<Passkey>) -> (r: Result<
    (CreationChallengeResponse, PasskeyRegistration),
    String,
>)
    requires
        timeout_fits(*w),
    ensures
        ({
            let (handle, name, display) = (user.id as u128, user.email@, match user.display_name {
                Some(n) => n@,
                None => user.email@,
            });
            &&& r is Ok <==> (name.len() > 0 && display.len() > 0)
            &&& r matches Ok((ccr, _)) ==> creation_user(ccr) == (handle, name, display)
                && creation_excluded(ccr) == Some(existing@.map_values(|p: Passkey| cred_id_of(p)))
        }),
        r matches Err(m) ==> webauthn_failure(m@),
{
    let exclude = excluded_credentials(existing);
    let (handle, name, display) = registration_identity(user);
    match webauthn_start_registration(w, handle, name.as_str(), display.as_str(), exclude) {
        Ok(v) => Ok(v),
        Err(e) => Err(failure_of(&e)),
    }
}

/// Finishes a registration: the passkey that webauthn-rs accepted, and the
/// label it is saved under (`passkey_label`).
pub fn finish_registration(
    w: &Webauthn,
    reg: &RegisterPublicKeyCredential,
    state: &PasskeyRegistration,
    label: &str,
) -> (r: Result<(Passkey, String), String>)
    ensures
        r is Ok <==> registration_accepted(*w, *reg, *state),
        r matches Ok((pk, l)) ==> pk == registered_passkey(*w, *reg, *state) && (if trim(label@).len()
            == 0 {
            l@ == "Passkey"@
        } else {
            l@ == trim(label@)
        }),
        r matches Err(m) ==> webauthn_failure(m@),
{
    match webauthn_finish_registration(w, reg, state) {
        Ok(pk) => Ok((pk, passkey_label(label))),
        Err(e) => Err(failure_of(&e)),
    }
}

/// Starts a sign-in with a discoverable credential.
pub fn start_login(w: &Webauthn) -> (r: Result<(RequestChallengeResponse, DiscoverableAuthentication), String>)
    requires
        timeout_fits(*w),
    ensures
        r is Ok,
{
    match webauthn_start_discoverable(w) {
        Ok(v) => Ok(v),
        Err(e) => Err(failure_of(&e)),
    }
}

/// The user id that a sign-in's credential claims, read back from its user
/// handle (`user_id_from_handle`); verified only by `finish_login`.
pub fn identify_login_user(w: &Webauthn, cred: &PublicKeyCredential) -> (r: Result<i64, String>)
    ensures
        match credential_user_handle(*cred) {
            Some(h) => r == Ok::<i64, String>(h as i64),
            None => r matches Err(m) && webauthn_failure(m@),
        },
{
    match webauthn_identify(w, cred) {
        Ok(h) => Ok(user_id_from_handle(h)),
        Err(e) => Err(failure_of(&e)),
    }
}

/// The discoverable keys of passkeys, in order.
pub open spec fn keys_of(passkeys: Seq<Passkey>) -> Seq<DiscoverableKey> {
    passkeys.map_values(|p: Passkey| discoverable_key_of(p))
}

/// Finishes a sign-in against the account's passkeys; an account without
/// any is refused before webauthn-rs is asked.
pub fn finish_login(
    w: &Webauthn,
    cred: &PublicKeyCredential,
    state: DiscoverableAuthentication,
    passkeys: &Vec<Passkey>,
) -> (r: Result<AuthenticationResult, String>)
    ensures
        passkeys.len() == 0 ==> (r matches Err(m) && m@ == prefixed(
            "auth"@,
            "no passkeys registered for that account"@,
        )),
        passkeys.len() > 0 ==> (r is Ok <==> login_accepted(*w, *cred, state, keys_of(passkeys@))),
        passkeys.len() > 0 ==> (r matches Ok(res) ==> res == login_result(
            *w,
            *cred,
            state,
            keys_of(passkeys@),
        )),
        passkeys.len() > 0 ==> (r matches Err(m) ==> webauthn_failure(m@)),
{
    check_has_passkeys(passkeys.len())?;
    let mut keys: Vec<DiscoverableKey> = Vec::new();
    let mut i: usize = 0;
    while i < passkeys.len()
        invariant
            i <= passkeys@.len(),
            keys@ == keys_of(passkeys@.subrange(0, i as int)),
        decreases passkeys.len() - i,
    {
        keys.push(discoverable_key(&passkeys[i]));
        i = i + 1;
        assert(keys@ =~= keys_of(passkeys@.subrange(0, i as int)));
    }
    assert(passkeys@.subrange(0, passkeys@.len() as int) =~= passkeys@);
    match webauthn_finish_discoverable(w, cred, state, keys.as_slice()) {
        Ok(res) => Ok(res),
        Err(e) => Err(failure_of(&e)),
    }
}

/// The first of the passkeys that a sign-in result is for.
pub open spec fn first_for(passkeys: Seq<(i64, Passkey)>, res: AuthenticationResult, i: int) -> bool {
    &&& 0 <= i < passkeys.len()
    &&& result_is_for(passkeys[i].1, res)
    &&& forall|j: int| 0 <= j < i ==> !result_is_for(#[trigger] passkeys[j].1, res)
}

/// After a sign-in, the first stored passkey (with its row id) that the
/// result is for, updated, to be saved back; `None` when it is for none.
pub fn apply_authentication(passkeys: Vec<(i64, Passkey)>, res: &AuthenticationResult) -> (r: Option<
    (i64, Passkey),
>)
    ensures
        r is None <==> forall|j: int| 0 <= j < passkeys@.len() ==> !result_is_for(#[trigger] passkeys@[j].1, *res),
        r matches Some((id, pk)) ==> exists|i: int| #[trigger] first_for(passkeys@, *res, i) && passkeys@[i].0 == id
            && pk == updated_passkey(passkeys@[i].1, *res),
{
    let ghost all = passkeys@;
    let mut rest = passkeys;
    let ghost mut skipped: int = 0;
    while rest.len() > 0
        invariant
            all == passkeys@,
            0 <= skipped <= all.len(),
            rest@ == all.subrange(skipped, all.len() as int),
            forall|j: int| 0 <= j < skipped ==> !result_is_for(#[trigger] all[j].1, *res),
        decreases rest.len(),
    {
        let (id, mut pk) = rest.remove(0);
        proof {
            assert(all[skipped] == (id, pk));
        }
        let ghost before = pk;
        if passkey_update_credential(&mut pk, res).is_some() {
            assert(first_for(all, *res, skipped));
            return Some((id, pk));
        }
        proof {
            skipped = skipped + 1;
        }
        assert(rest@ =~= all.subrange(skipped, all.len() as int));
    }
    None
}

} // verus!
