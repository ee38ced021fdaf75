//! Random tokens, codes and temporary passwords.

use vstd::prelude::*;

use rand::distributions::Alphanumeric;
use rand::{Rng, RngCore};

use crate::text::{is_ascii_alphanumeric, string_from_chars};

verus! {

/// rand `OsRng::fill_bytes`: `n` bytes from the operating system's random
/// source. Only their number is stated; the call panics if the source fails.
#[verifier::external_body]
fn os_random_bytes(n: usize) -> (v: Vec<u8>)
    ensures
        v@.len() == n,
{
    let mut v = vec![0u8; n];
    rand::rngs::OsRng.fill_bytes(&mut v);
    v
}

/// rand `thread_rng().sample_iter(&Alphanumeric)`: `n` characters drawn
/// uniformly from `A-Z`, `a-z`, `0-9`. Which ones is not stated.
#[verifier::external_body]
fn random_alphanumeric(n: usize) -> (v: Vec<char>)
    ensures
        v@.len() == n,
        forall|i: int| 0 <= i < n ==> is_ascii_alphanumeric(#[trigger] v@[i]),
{
    rand::thread_rng().sample_iter(&Alphanumeric).take(n).map(char::from).collect()
}

/// The lowercase hexadecimal digit for `d` (`0..16`).
pub open spec fn hex_digit(d: nat) -> char {
    if d < 10 {
        ((d + 48) as u32) as char
    } else {
        ((d + 87) as u32) as char
    }
}

/// Each byte as two lowercase hexadecimal digits (`{:02x}`), in order.
pub open spec fn hex_lower(bytes: Seq<u8>) -> Seq<char>
    decreases bytes.len(),
{
    if bytes.len() == 0 {
        Seq::empty()
    } else {
        hex_lower(bytes.drop_last()) + seq![
            hex_digit((bytes.last() / 16) as nat),
            hex_digit((bytes.last() % 16) as nat),
        ]
    }
}

pub open spec fn is_hex_lower_char(c: char) -> bool {
    ('0' <= c && c <= '9') || ('a' <= c && c <= 'f')
}

fn hex_char(d: u8) -> (c: char)
    requires
        d < 16,
    ensures
        c == hex_digit(d as nat),
        is_hex_lower_char(c),
{
    if d < 10 {
        let k: u8 = d + 48;
        assert(k as u32 == (d + 48) as u32);
        k as char
    } else {
        let k: u8 = d + 87;
        assert(k as u32 == (d + 87) as u32);
        k as char
    }
}

/// Lowercase hexadecimal encoding of bytes.
pub fn hex_encode(bytes: &[u8]) -> (s: Vec<char>)
    ensures
        s@ == hex_lower(bytes@),
        s@.len() == 2 * bytes@.len(),
        forall|i: int| 0 <= i < s@.len() ==> is_hex_lower_char(#[trigger] s@[i]),
{
    let mut out: Vec<char> = Vec::new();
    let mut i: usize = 0;
    while i < bytes.len()
        invariant
            i <= bytes@.len(),
            out@ == hex_lower(bytes@.subrange(0, i as int)),
            out@.len() == 2 * i,
            forall|k: int| 0 <= k < out@.len() ==> is_hex_lower_char(#[trigger] out@[k]),
        decreases bytes.len() - i,
    {
        let b = bytes[i];
        out.push(hex_char(b / 16));
        out.push(hex_char(b % 16));
        assert(bytes@.subrange(0, i + 1).drop_last() =~= bytes@.subrange(0, i as int));
        i = i + 1;
        assert(out@ =~= hex_lower(bytes@.subrange(0, i as int)));
    }
    assert(bytes@.subrange(0, bytes@.len() as int) =~= bytes@);
    out
}

/// A random token for links and stored file names: 24 random bytes as 48
/// lowercase hexadecimal digits.
pub fn gen_token() -> (t: String)
    ensures
        exists|b: Seq<u8>| b.len() == 24 && t@ == #[trigger] hex_lower(b),
        t@.len() == 48,
        forall|i: int| 0 <= i < t@.len() ==> is_hex_lower_char(#[trigger] t@[i]),
{
    let bytes = os_random_bytes(24);
    let h = hex_encode(bytes.as_slice());
    string_from_chars(h.as_slice())
}

/// A random sign-up invite code: 8 random bytes as 16 lowercase hexadecimal
/// digits.
pub fn gen_code() -> (t: String)
    ensures
        exists|b: Seq<u8>| b.len() == 8 && t@ == #[trigger] hex_lower(b),
        t@.len() == 16,
        forall|i: int| 0 <= i < t@.len() ==> is_hex_lower_char(#[trigger] t@[i]),
{
    let bytes = os_random_bytes(8);
    let h = hex_encode(bytes.as_slice());
    string_from_chars(h.as_slice())
}

/// A random temporary password: 12 ASCII letters and digits.
pub fn gen_temp_password() -> (p: String)
    ensures
        p@.len() == 12,
        forall|i: int| 0 <= i < p@.len() ==> is_ascii_alphanumeric(#[trigger] p@[i]),
{
    let v = random_alphanumeric(12);
    string_from_chars(v.as_slice())
}

} // verus!
