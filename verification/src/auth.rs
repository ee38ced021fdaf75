//! Sign-in, sign-up and account rules.

use vstd::prelude::*;

use crate::models::{AuthOutcome, AuthUser};
use crate::text::{
    byte_len, utf8_len,
    chars_of, find_chars, find_from, is_white_space, lemma_find_from, lowercase, str_less, str_lt,
    to_lowercase, to_owned_string, trim, trim_string, trims_to_empty,
};

verus! {

/// The session key under which the signed-in user's id is kept.
pub const SESSION_USER_ID: &'static str = "uid";

/// The shortest accepted password, in bytes.
pub const MIN_PASSWORD_BYTES: usize = 8;

// ---------------------------------------------------------------------------
// Email addresses
// ---------------------------------------------------------------------------

/// A plausible email address: an `@` that is neither first nor last, and a
/// `.` somewhere after the first `@`.
pub open spec fn is_email_addr(s: Seq<char>) -> bool {
    match find_from(s, seq!['@'], 0) {
        None => false,
        Some(at) => at != 0 && at != s.len() - 1 && exists|k: int|
            at < k < s.len() && #[trigger] s[k] == '.',
    }
}

pub fn is_email(s: &str) -> (b: bool)
    ensures
        b == is_email_addr(s@),
{
    let v = chars_of(s);
    let at_pat: Vec<char> = vec!['@'];
    assert(at_pat@ =~= seq!['@']);
    match find_chars(v.as_slice(), at_pat.as_slice(), 0) {
        None => false,
        Some(at) => {
            proof {
                lemma_find_from(v@, seq!['@'], 0);
            }
            if at == 0 || at == v.len() - 1 {
                return false;
            }
            let mut k = at + 1;
            while k < v.len()
                invariant
                    at < k <= v@.len(),
                    v@ == s@,
                    find_from(s@, seq!['@'], 0) == Some(at as int),
                    at != 0,
                    at != v@.len() - 1,
                    forall|m: int| at < m < k ==> v@[m] != '.',
                decreases v.len() - k,
            {
                if v[k] == '.' {
                    assert(s@[k as int] == '.');
                    assert(find_from(s@, seq!['@'], 0) == Some(at as int));
                    return true;
                }
                k = k + 1;
            }
            false
        },
    }
}

/// Whether `s` has an `@` anywhere.
pub open spec fn has_at_sign(s: Seq<char>) -> bool {
    exists|i: int| 0 <= i < s.len() && #[trigger] s[i] == '@'
}

pub fn contains_at_sign(s: &[char]) -> (b: bool)
    ensures
        b == has_at_sign(s@),
{
    let mut i: usize = 0;
    while i < s.len()
        invariant
            i <= s@.len(),
            forall|m: int| 0 <= m < i ==> s@[m] != '@',
        decreases s.len() - i,
    {
        if s[i] == '@' {
            return true;
        }
        i = i + 1;
    }
    false
}

/// How an email address typed into a form is normalized: trimmed, then
/// lowercased.
pub open spec fn normalized_email(s: Seq<char>) -> Seq<char> {
    lowercase(trim(s))
}

pub fn normalize_email(s: &str) -> (r: String)
    ensures
        r@ == normalized_email(s@),
{
    let t = trim_string(s);
    to_lowercase(t.as_str())
}

// ---------------------------------------------------------------------------
// Outcomes
// ---------------------------------------------------------------------------

/// `o` reports success.
pub open spec fn succeeded(o: AuthOutcome) -> bool {
    o.ok && o.message is None
}

/// `o` reports failure with the message `msg`.
pub open spec fn failed_with(o: AuthOutcome, msg: Seq<char>) -> bool {
    &&& !o.ok
    &&& o.message matches Some(m) && m@ == msg
}

pub fn success() -> (o: AuthOutcome)
    ensures
        succeeded(o),
{
    AuthOutcome { ok: true, message: None }
}

pub fn failure(msg: &str) -> (o: AuthOutcome)
    ensures
        failed_with(o, msg@),
{
    AuthOutcome { ok: false, message: Some(to_owned_string(msg)) }
}

// ---------------------------------------------------------------------------
// Sessions
// ---------------------------------------------------------------------------

/// A user as stored, with the lock flag.
#[derive(Debug, Clone, PartialEq, Eq)]
pub struct UserRow {
    pub id: i64,
    pub email: String,
    pub display_name: Option<String>,
    pub is_admin: bool,
    pub locked: bool,
}

/// The signed-in user for a session whose user id found `row`. A locked
/// account counts as signed out, on every request.
pub fn session_user(row: Option<UserRow>) -> (u: Option<AuthUser>)
    ensures
        u is Some <==> (row matches Some(r) && !r.locked),
        u matches Some(a) ==> (row matches Some(r) && a.id == r.id && a.email == r.email
            && a.display_name == r.display_name && a.is_admin == r.is_admin),
{
    match row {
        Some(r) => if r.locked {
            None
        } else {
            Some(AuthUser {
                id: r.id,
                email: r.email,
                display_name: r.display_name,
                is_admin: r.is_admin,
            })
        },
        None => None,
    }
}

/// Why an action was refused for want of rights.
#[derive(Debug, Clone, Copy, PartialEq, Eq, Structural)]
pub enum AccessError {
    NotSignedIn,
    AdminRequired,
}

impl AccessError {
    pub fn message(&self) -> (s: &'static str)
        ensures
            *self == AccessError::NotSignedIn ==> s@ == "not signed in"@,
            *self == AccessError::AdminRequired ==> s@ == "admin access required"@,
    {
        match self {
            AccessError::NotSignedIn => "not signed in",
            AccessError::AdminRequired => "admin access required",
        }
    }
}

/// The signed-in user, or `NotSignedIn`.
pub fn require_user(user: Option<AuthUser>) -> (r: Result<AuthUser, AccessError>)
    ensures
        match user {
            Some(u) => r == Ok::<AuthUser, AccessError>(u),
            None => r == Err::<AuthUser, AccessError>(AccessError::NotSignedIn),
        },
{
    match user {
        Some(u) => Ok(u),
        None => Err(AccessError::NotSignedIn),
    }
}

/// The signed-in user when it is an admin; `NotSignedIn` or `AdminRequired`
/// otherwise.
pub fn require_admin(user: Option<AuthUser>) -> (r: Result<AuthUser, AccessError>)
    ensures
        match user {
            Some(u) => if u.is_admin {
                r == Ok::<AuthUser, AccessError>(u)
            } else {
                r == Err::<AuthUser, AccessError>(AccessError::AdminRequired)
            },
            None => r == Err::<AuthUser, AccessError>(AccessError::NotSignedIn),
        },
{
    let u = require_user(user)?;
    if !u.is_admin {
        return Err(AccessError::AdminRequired);
    }
    Ok(u)
}

/// Only admins get past `require_admin`, and whoever does is signed in.
pub proof fn lemma_admin_gate(user: Option<AuthUser>, r: Result<AuthUser, AccessError>)
    requires
        match user {
            Some(u) => if u.is_admin {
                r == Ok::<AuthUser, AccessError>(u)
            } else {
                r == Err::<AuthUser, AccessError>(AccessError::AdminRequired)
            },
            None => r == Err::<AuthUser, AccessError>(AccessError::NotSignedIn),
        },
    ensures
        r matches Ok(a) ==> user == Some(a) && a.is_admin,
{
}

// ---------------------------------------------------------------------------
// Sign-in
// ---------------------------------------------------------------------------

/// The normalized email to look up, or the form's failure.
pub fn login_precheck(email: &str, password: &str) -> (r: Result<String, AuthOutcome>)
    ensures
        match r {
            Ok(e) => e@ == normalized_email(email@) && is_email_addr(e@) && password@.len() > 0,
            Err(o) => failed_with(o, "Invalid email or password"@) && (!is_email_addr(
                normalized_email(email@),
            ) || password@.len() == 0),
        },
{
    let e = normalize_email(email);
    if !is_email(e.as_str()) || password.is_empty() {
        return Err(failure("Invalid email or password"));
    }
    Ok(e)
}

/// The stored facts a sign-in decides on.
#[derive(Debug, Clone, Copy, PartialEq, Eq, Structural)]
pub struct LoginRow {
    pub user_id: i64,
    pub locked: bool,
}

/// What a sign-in ends in.
#[derive(Debug, Clone, PartialEq, Eq)]
pub enum LoginStep {
    /// The form shows this failure.
    Reject(AuthOutcome),
    /// The session is given this user id.
    SignIn(i64),
}

/// `r` is how a sign-in ends for the account found (`None`: none) and
/// whether the password matched.
pub open spec fn login_result(row: Option<LoginRow>, password_matches: bool, r: LoginStep) -> bool {
    match row {
        None => r matches LoginStep::Reject(o) && failed_with(o, "Wrong email or password"@),
        Some(u) => if !password_matches {
            r matches LoginStep::Reject(o) && failed_with(o, "Wrong email or password"@)
        } else if u.locked {
            r matches LoginStep::Reject(o) && failed_with(o, "This account has been locked"@)
        } else {
            r == LoginStep::SignIn(u.user_id)
        },
    }
}

/// The sign-in decision for the account found for the email (`None`: no
/// account) and whether the password matched its hash. A wrong password
/// gets the same answer as an unknown email, and the lock is only reported
/// to someone who knew the password.
pub fn login_decision(row: Option<LoginRow>, password_matches: bool) -> (r: LoginStep)
    ensures
        login_result(row, password_matches, r),
{
    match row {
        None => LoginStep::Reject(failure("Wrong email or password")),
        Some(u) => {
            if !password_matches {
                return LoginStep::Reject(failure("Wrong email or password"));
            }
            if u.locked {
                return LoginStep::Reject(failure("This account has been locked"));
            }
            LoginStep::SignIn(u.user_id)
        },
    }
}

/// A locked account is never signed in, whatever password is given; a
/// wrong password never signs anyone in; and the lock is only revealed to
/// someone who gave the right password.
pub proof fn lemma_locked_or_wrong_never_signs_in(row: Option<LoginRow>, password_matches: bool, r: LoginStep)
    requires
        login_result(row, password_matches, r),
    ensures
        (row matches Some(u) && u.locked) ==> r is Reject,
        !password_matches ==> (r matches LoginStep::Reject(o) && failed_with(o, "Wrong email or password"@)),
        r matches LoginStep::SignIn(id) ==> (row matches Some(u) && !u.locked && password_matches
            && id == u.user_id),
{
}

// ---------------------------------------------------------------------------
// Sign-up
// ---------------------------------------------------------------------------

/// The normalized email and invite code of a sign-up form, or its failure.
pub fn register_precheck(email: &str, password: &str, invite_code: &str) -> (r: Result<
    (String, String),
    AuthOutcome,
>)
    ensures
        ({
            let e = normalized_email(email@);
            let c = trim(invite_code@);
            match r {
                Ok((ne, nc)) => ne@ == e && nc@ == c && is_email_addr(e) && utf8_len(password@)
                    >= 8 && c.len() > 0,
                Err(o) => if !is_email_addr(e) {
                    failed_with(o, "Invalid email address"@)
                } else if utf8_len(password@) < 8 {
                    failed_with(o, "Password must be at least 8 characters"@)
                } else {
                    c.len() == 0 && failed_with(o, "Invite code is required"@)
                },
            }
        }),
{
    let e = normalize_email(email);
    let code = trim_string(invite_code);
    if !is_email(e.as_str()) {
        return Err(failure("Invalid email address"));
    }
    if byte_len(password) < MIN_PASSWORD_BYTES {
        return Err(failure("Password must be at least 8 characters"));
    }
    if code.as_str().is_empty() {
        return Err(failure("Invite code is required"));
    }
    Ok((e, code))
}

/// An invite code's state when someone signs up with it.
#[derive(Debug, Clone, Copy, PartialEq, Eq, Structural)]
pub enum InviteCheck {
    Usable,
    NoUsesLeft,
    Expired,
}

/// An invite is usable while it has uses left and its expiry (a
/// `YYYY-MM-DD HH:MM:SS` text) is not before `now` in the same format.
pub open spec fn invite_state(uses_left: i64, expires_at: Option<Seq<char>>, now: Seq<char>) -> InviteCheck {
    if uses_left <= 0 {
        InviteCheck::NoUsesLeft
    } else if expires_at matches Some(e) && str_lt(e, now) {
        InviteCheck::Expired
    } else {
        InviteCheck::Usable
    }
}

pub fn check_signup_invite(uses_left: i64, expires_at: &Option<String>, now: &str) -> (r: InviteCheck)
    ensures
        r == invite_state(
            uses_left,
            match expires_at {
                Some(e) => Some(e@),
                None => None,
            },
            now@,
        ),
{
    if uses_left <= 0 {
        return InviteCheck::NoUsesLeft;
    }
    match expires_at {
        Some(e) => if str_less(e.as_str(), now) {
            InviteCheck::Expired
        } else {
            InviteCheck::Usable
        },
        None => InviteCheck::Usable,
    }
}

/// The sign-up form's failure for an invite code that was not found
/// (`None`) or is not usable; `None` when the sign-up may go on.
pub fn invite_rejection(check: Option<InviteCheck>) -> (r: Option<AuthOutcome>)
    ensures
        match check {
            None => r matches Some(o) && failed_with(o, "Invalid invite code"@),
            Some(InviteCheck::NoUsesLeft) => r matches Some(o) && failed_with(
                o,
                "That invite code has no uses left"@,
            ),
            Some(InviteCheck::Expired) => r matches Some(o) && failed_with(
                o,
                "That invite code has expired"@,
            ),
            Some(InviteCheck::Usable) => r is None,
        },
{
    match check {
        None => Some(failure("Invalid invite code")),
        Some(InviteCheck::NoUsesLeft) => Some(failure("That invite code has no uses left")),
        Some(InviteCheck::Expired) => Some(failure("That invite code has expired")),
        Some(InviteCheck::Usable) => None,
    }
}

/// The failure for an email address that already has an account.
pub fn email_taken() -> (o: AuthOutcome)
    ensures
        failed_with(o, "That email is already registered"@),
{
    failure("That email is already registered")
}

/// Whether a sign-up may go on, once its invite code was looked up (`None`:
/// no such code) and, for a usable code, whether the email is taken: the
/// invite's refusal first, then a taken email; `None` to go on.
pub fn signup_refusal(check: Option<InviteCheck>, taken: bool) -> (r: Option<AuthOutcome>)
    ensures
        match check {
            None => r matches Some(o) && failed_with(o, "Invalid invite code"@),
            Some(InviteCheck::NoUsesLeft) => r matches Some(o) && failed_with(
                o,
                "That invite code has no uses left"@,
            ),
            Some(InviteCheck::Expired) => r matches Some(o) && failed_with(
                o,
                "That invite code has expired"@,
            ),
            Some(InviteCheck::Usable) => if taken {
                r matches Some(o) && failed_with(o, "That email is already registered"@)
            } else {
                r is None
            },
        },
{
    match invite_rejection(check) {
        Some(o) => Some(o),
        None => if taken {
            Some(email_taken())
        } else {
            None
        },
    }
}

// ---------------------------------------------------------------------------
// Account settings
// ---------------------------------------------------------------------------

/// A new password's failure, if it is too short.
pub fn change_password_precheck(new_password: &str) -> (r: Option<AuthOutcome>)
    ensures
        utf8_len(new_password@) < 8 <==> r is Some,
        r matches Some(o) ==> failed_with(o, "New password must be at least 8 characters"@),
{
    if byte_len(new_password) < MIN_PASSWORD_BYTES {
        return Some(failure("New password must be at least 8 characters"));
    }
    None
}

/// The answer when the current password did not match.
pub fn current_password_incorrect() -> (o: AuthOutcome)
    ensures
        failed_with(o, "Current password is incorrect"@),
{
    failure("Current password is incorrect")
}

/// A display name as stored: trimmed, and absent when blank.
pub fn normalize_display_name(name: &str) -> (r: Option<String>)
    ensures
        trim(name@).len() == 0 <==> r is None,
        r matches Some(n) ==> n@ == trim(name@),
{
    let t = trim_string(name);
    if t.as_str().is_empty() {
        None
    } else {
        Some(t)
    }
}

} // verus!
