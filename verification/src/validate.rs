//! Validation of identifier strings before a request is built.
//!
//! The platform accepts two shapes of identifier: IDs and slugs drawn from a
//! fixed alphabet, and lowercase hexadecimal SHA-1 digests.

use vstd::prelude::*;

use crate::Error;

verus! {

/// What `char::is_alphanumeric` returns: a function of the character alone.
pub uninterp spec fn unicode_alphanumeric(c: char) -> bool;

/// Relies on char::is_alphanumeric: true exactly for Unicode letters and
/// digits, which is determined by the character alone.
#[verifier::external_body]
fn alphanumeric(c: char) -> (r: bool)
    ensures
        r == unicode_alphanumeric(c),
{
    c.is_alphanumeric()
}

/// One character of the platform's ID / slug alphabet: a letter or digit, an
/// underscore, or one of the platform's documented punctuation characters.
pub open spec fn is_id_slug_char(c: char) -> bool {
    ||| unicode_alphanumeric(c)
    ||| c == '_'
    ||| c == '!'
    ||| c == '@'
    ||| c == '$'
    ||| c == '('
    ||| c == ')'
    ||| c == '`'
    ||| c == '.'
    ||| c == '+'
    ||| c == ','
    ||| c == '"'
    ||| c == '-'
    ||| c == '\''
}

/// A valid platform ID or slug: 3 to 64 characters, all from the ID / slug
/// alphabet.
pub open spec fn is_id_slug(s: Seq<char>) -> bool {
    &&& 3 <= s.len() <= 64
    &&& forall|i: int| 0 <= i < s.len() ==> is_id_slug_char(#[trigger] s[i])
}

/// All of the given identifiers are valid IDs or slugs.
pub open spec fn all_id_slugs(ids: Seq<&str>) -> bool {
    forall|i: int| 0 <= i < ids.len() ==> is_id_slug(#[trigger] ids[i]@)
}

/// A lowercase hexadecimal digit.
pub open spec fn is_lower_hex_char(c: char) -> bool {
    ('0' <= c && c <= '9') || ('a' <= c && c <= 'f')
}

/// A valid SHA-1 digest: exactly 40 lowercase hexadecimal characters.
pub open spec fn is_sha1_hash(s: Seq<char>) -> bool {
    &&& s.len() == 40
    &&& forall|i: int| 0 <= i < s.len() ==> is_lower_hex_char(#[trigger] s[i])
}

fn id_slug_char(c: char) -> (r: bool)
    ensures
        r == is_id_slug_char(c),
{
    alphanumeric(c) || c == '_' || c == '!' || c == '@' || c == '$' || c == '(' || c == ')'
        || c == '`' || c == '.' || c == '+' || c == ',' || c == '"' || c == '-' || c == '\''
}

/// All of the given strings are valid SHA-1 digests.
pub open spec fn all_sha1_hashes(hashes: Seq<&str>) -> bool {
    forall|i: int| 0 <= i < hashes.len() ==> is_sha1_hash(#[trigger] hashes[i]@)
}

/// Whether `input` is a valid platform ID or slug.
pub fn valid_id_slug(input: &str) -> (r: bool)
    ensures
        r == is_id_slug(input@),
{
    let n = input.unicode_len();
    if n < 3 || n > 64 {
        return false;
    }
    let mut i: usize = 0;
    while i < n
        invariant
            n == input@.len(),
            3 <= n <= 64,
            i <= n,
            forall|j: int| 0 <= j < i ==> is_id_slug_char(#[trigger] input@[j]),
        decreases n - i,
    {
        if !id_slug_char(input.get_char(i)) {
            return false;
        }
        i += 1;
    }
    true
}

/// Whether `input` is a valid lowercase SHA-1 hex digest.
pub fn valid_sha1_hash(input: &str) -> (r: bool)
    ensures
        r == is_sha1_hash(input@),
{
    let n = input.unicode_len();
    if n != 40 {
        return false;
    }
    let mut i: usize = 0;
    while i < n
        invariant
            n == input@.len(),
            n == 40,
            i <= n,
            forall|j: int| 0 <= j < i ==> is_lower_hex_char(#[trigger] input@[j]),
        decreases n - i,
    {
        let c = input.get_char(i);
        if !(('0' <= c && c <= '9') || ('a' <= c && c <= 'f')) {
            return false;
        }
        i += 1;
    }
    true
}

/// Verify that every input is a valid platform ID or slug; reject otherwise,
/// before any request is built.
pub fn check_id_slug(inputs: &[&str]) -> (r: Result<(), Error>)
    ensures
        r is Ok <==> (forall|i: int|
            0 <= i < inputs@.len() ==> is_id_slug(#[trigger] inputs@[i]@)),
        r is Err ==> r == Err::<(), Error>(Error::InvalidIDorSlug),
{
    let n = inputs.len();
    let mut i: usize = 0;
    while i < n
        invariant
            n == inputs@.len(),
            i <= n,
            forall|j: int| 0 <= j < i ==> is_id_slug(#[trigger] inputs@[j]@),
        decreases n - i,
    {
        if !valid_id_slug(inputs[i]) {
            return Err(Error::InvalidIDorSlug);
        }
        i += 1;
    }
    Ok(())
}

/// Verify that every input is a valid lowercase SHA-1 hex digest; reject
/// otherwise, before any request is built.
pub fn check_sha1_hash(inputs: &[&str]) -> (r: Result<(), Error>)
    ensures
        r is Ok <==> (forall|i: int|
            0 <= i < inputs@.len() ==> is_sha1_hash(#[trigger] inputs@[i]@)),
        r is Err ==> r == Err::<(), Error>(Error::InvalidSHA1),
{
    let n = inputs.len();
    let mut i: usize = 0;
    while i < n
        invariant
            n == inputs@.len(),
            i <= n,
            forall|j: int| 0 <= j < i ==> is_sha1_hash(#[trigger] inputs@[j]@),
        decreases n - i,
    {
        if !valid_sha1_hash(inputs[i]) {
            return Err(Error::InvalidSHA1);
        }
        i += 1;
    }
    Ok(())
}

} // verus!
