//! The value file of a created or rolled token: what is written to it, the
//! digest reported in its place, and the refusals on the way.
use vstd::prelude::*;

use crate::text::owned;
use crate::tool::Secret;

verus! {

/// The SHA-256 digest of the UTF-8 bytes of a text, in lower-case
/// hexadecimal.
pub uninterp spec fn sha256_hex(text: Seq<char>) -> Seq<char>;

/// The SHA-256 digest of a secret (`sha2::Sha256::digest`), written as 64
/// lower-case hexadecimal digits.
#[verifier::external_body]
fn sha256(text: &str) -> (r: String)
    ensures
        r@ == sha256_hex(text@),
{
    format!("{:x}", <sha2::Sha256 as sha2::Digest>::digest(text.as_bytes()))
}

/// The digest reported in place of a secret.
pub fn digest(secret: &Secret) -> (r: String)
    ensures
        r@ == sha256_hex(secret@),
{
    sha256(secret.expose())
}

/// The secret a reply must carry when a token is created or rolled.
pub fn needed(secret: Option<&Secret>) -> (r: Result<&Secret, String>)
    ensures
        match secret {
            Some(s) => r == Ok::<&Secret, String>(s),
            None => r matches Err(e) && e@ == "cloudflare did not return a token secret"@,
        },
{
    match secret {
        Some(s) => Ok(s),
        None => Err(owned("cloudflare did not return a token secret")),
    }
}

/// What the value file holds: the secret and a newline.
pub fn contents(secret: &Secret) -> (r: String)
    ensures
        r@ == secret@ + "\n"@,
{
    let mut out = owned(secret.expose());
    out.append("\n");
    out
}

/// The refusal when the value file cannot be written: the token exists by
/// then, so its id (or `unknown`) is named.
pub fn failure(id: Option<&str>, path: &str) -> (r: String)
    ensures
        r@ == "cloudflare created or rolled token "@ + (match id {
            Some(i) => i@,
            None => "unknown"@,
        }) + ", but its secret could not be written to "@ + path@,
{
    let mut out = owned("cloudflare created or rolled token ");
    match id {
        Some(i) => out.append(i),
        None => out.append("unknown"),
    }
    out.append(", but its secret could not be written to ");
    out.append(path);
    out
}

} // verus!
