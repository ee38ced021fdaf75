//! Database set-up decisions: migrations and the first admin.

use vstd::prelude::*;

use crate::text::{
    chars_of, contains_chars, contains_seq, find_chars, find_from, lemma_find_from, occurs_at,
    push_chars, string_from_chars,
};

verus! {

/// The migrations, in the order they are applied.
pub fn migration_names() -> (v: Vec<&'static str>)
    ensures
        v@ == seq![
            "0001_init",
            "0002_attachments",
            "0003_admin_invites",
            "0004_passkeys",
            "0005_user_management",
            "0006_attachments_owner_index",
            "0007_attachments_library_scope",
        ],
{
    let v = vec![
        "0001_init",
        "0002_attachments",
        "0003_admin_invites",
        "0004_passkeys",
        "0005_user_management",
        "0006_attachments_owner_index",
        "0007_attachments_library_scope",
    ];
    v
}

/// A failed migration whose schema is already there (the error says a
/// column is a duplicate or an object already exists) is marked applied
/// instead of failing the start-up.
pub open spec fn tolerated_migration_error(msg: Seq<char>) -> bool {
    contains_seq(msg, "duplicate column name"@) || contains_seq(msg, "already exists"@)
}

pub fn is_tolerated_migration_error(msg: &str) -> (b: bool)
    ensures
        b == tolerated_migration_error(msg@),
{
    let m = chars_of(msg);
    contains_chars(m.as_slice(), chars_of("duplicate column name").as_slice()) || contains_chars(
        m.as_slice(),
        chars_of("already exists").as_slice(),
    )
}

/// `email:password`, split at the first `:`.
pub open spec fn bootstrap_parts(spec: Seq<char>) -> Option<(Seq<char>, Seq<char>)> {
    match find_from(spec, seq![':'], 0) {
        Some(i) => Some((spec.subrange(0, i), spec.subrange(i + 1, spec.len() as int))),
        None => None,
    }
}

/// The first admin's email and password from the bootstrap setting
/// (`email:password`), or `None` when it has no `:`.
pub fn parse_bootstrap_admin(spec: &str) -> (r: Option<(String, String)>)
    ensures
        match bootstrap_parts(spec@) {
            Some((e, p)) => r matches Some((a, b)) && a@ == e && b@ == p,
            None => r is None,
        },
{
    let v = chars_of(spec);
    let colon: Vec<char> = vec![':'];
    assert(colon@ =~= seq![':']);
    match find_chars(v.as_slice(), colon.as_slice(), 0) {
        Some(i) => {
            proof {
                lemma_find_from(v@, seq![':'], 0);
            }
            assert(occurs_at(v@, i as int, seq![':']));
            assert(v@.len() == v.len());
            let mut e: Vec<char> = Vec::new();
            push_chars(&mut e, v.as_slice(), 0, i);
            let mut p: Vec<char> = Vec::new();
            push_chars(&mut p, v.as_slice(), i + 1, v.len());
            assert(e@ =~= v@.subrange(0, i as int));
            assert(p@ =~= v@.subrange(i + 1, v@.len() as int));
            Some((string_from_chars(e.as_slice()), string_from_chars(p.as_slice())))
        },
        None => None,
    }
}

/// The first admin is created only while there are no users at all.
pub fn should_bootstrap_admin(user_count: i64) -> (b: bool)
    ensures
        b == (user_count <= 0),
{
    user_count <= 0
}

} // verus!
