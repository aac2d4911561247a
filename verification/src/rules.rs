//! The rules that single texts have to meet.

use crate::text::{
    char_is_alphanumeric, char_is_hex_digit, chars_of, has_prefix, is_alphanumeric, is_hex_digit,
    same_text, starts_with,
};
use vstd::prelude::*;

verus! {

/// A canonical SHA-256 fingerprint: `sha256:` and sixty-four lower-case
/// hexadecimal digits.
pub open spec fn is_fingerprint(value: Seq<char>) -> bool {
    &&& value.len() == 71
    &&& has_prefix(value, "sha256:"@)
    &&& forall|i: int| 7 <= i < value.len() ==> is_hex_digit(#[trigger] value[i])
}

/// A character of a safe identifier.
pub open spec fn is_identifier_char(c: char) -> bool {
    is_alphanumeric(c) || c == '-' || c == '_' || c == ':' || c == '.'
}

/// A safe identifier: one to 255 letters, digits, and `-`, `_`, `:`, `.`.
pub open spec fn is_identifier(value: Seq<char>) -> bool {
    &&& 1 <= value.len() <= 255
    &&& forall|i: int| 0 <= i < value.len() ==> is_identifier_char(#[trigger] value[i])
}

/// The tags that a join credential may carry.
pub open spec fn is_approved_tag(value: Seq<char>) -> bool {
    ||| value == "tag:nodescale-node"@
    ||| value == "tag:nodescale-worker"@
    ||| value == "tag:nodescale-controller"@
    ||| value == "tag:nodescale-profile-host"@
    ||| value == "tag:nodescale-observer"@
    ||| value == "tag:nodescale-admin"@
}

/// A character of unpadded URL-safe base64.
pub open spec fn is_nonce_char(c: char) -> bool {
    is_alphanumeric(c) || c == '-' || c == '_'
}

/// A character that can end the base64 form of thirty-two bytes: its two low
/// bits are zero.
pub open spec fn ends_nonce(c: char) -> bool {
    "AEIMQUYcgkosw048"@.contains(c)
}

/// A binding nonce in its canonical form.
pub open spec fn is_binding_nonce(value: Seq<char>) -> bool {
    &&& has_prefix(value, "nsbind_"@)
    &&& value.len() == 50
    &&& forall|i: int| 7 <= i < value.len() ==> is_nonce_char(#[trigger] value[i])
    &&& ends_nonce(value[49])
}

/// A text that gives a binding secret away: a binding nonce, or a verifier made
/// with the parameters used for nonces.
pub open spec fn is_audit_secret(value: Seq<char>) -> bool {
    is_binding_nonce(value) || has_prefix(value, "$argon2id$v=19$m=19456,t=2,p=1$"@)
}

/// Whether a text is a canonical SHA-256 fingerprint.
pub fn valid_sha256_fingerprint(value: &str) -> (valid: bool)
    ensures
        valid == is_fingerprint(value@),
{
    if !starts_with(value, "sha256:") {
        return false;
    }
    let chars = chars_of(value);
    if chars.len() != 71 {
        return false;
    }
    for i in 7..chars.len()
        invariant
            chars@ == value@,
            forall|j: int| 7 <= j < i ==> is_hex_digit(#[trigger] value@[j]),
    {
        if !char_is_hex_digit(chars[i]) {
            assert(!is_hex_digit(value@[i as int]));
            return false;
        }
    }
    true
}

/// Whether a text is a safe identifier.
pub fn safe_identifier(value: &str) -> (safe: bool)
    ensures
        safe == is_identifier(value@),
{
    let chars = chars_of(value);
    if chars.len() == 0 || chars.len() > 255 {
        return false;
    }
    for i in 0..chars.len()
        invariant
            chars@ == value@,
            forall|j: int| 0 <= j < i ==> is_identifier_char(#[trigger] value@[j]),
    {
        let c = chars[i];
        if !(char_is_alphanumeric(c) || c == '-' || c == '_' || c == ':' || c == '.') {
            assert(!is_identifier_char(value@[i as int]));
            return false;
        }
    }
    true
}

/// Whether a join credential may carry the tag.
pub fn n4_approved_tag(value: &str) -> (approved: bool)
    ensures
        approved == is_approved_tag(value@),
{
    same_text(value, "tag:nodescale-node") || same_text(value, "tag:nodescale-worker") || same_text(
        value,
        "tag:nodescale-controller",
    ) || same_text(value, "tag:nodescale-profile-host") || same_text(value, "tag:nodescale-observer")
        || same_text(value, "tag:nodescale-admin")
}

/// Whether a text gives a binding secret away.
pub fn n6_audit_secret_value(value: &str) -> (secret: bool)
    ensures
        secret == is_audit_secret(value@),
{
    binding_nonce(value) || starts_with(value, "$argon2id$v=19$m=19456,t=2,p=1$")
}

fn binding_nonce(value: &str) -> (found: bool)
    ensures
        found == is_binding_nonce(value@),
{
    if !starts_with(value, "nsbind_") {
        return false;
    }
    let chars = chars_of(value);
    if chars.len() != 50 {
        return false;
    }
    for i in 7..chars.len()
        invariant
            chars@ == value@,
            forall|j: int| 7 <= j < i ==> is_nonce_char(#[trigger] value@[j]),
    {
        let c = chars[i];
        if !(char_is_alphanumeric(c) || c == '-' || c == '_') {
            assert(!is_nonce_char(value@[i as int]));
            return false;
        }
    }
    contains_char("AEIMQUYcgkosw048", chars[49])
}

/// Whether a character occurs in a text.
pub fn contains_char(text: &str, wanted: char) -> (found: bool)
    ensures
        found == text@.contains(wanted),
{
    let chars = chars_of(text);
    for i in 0..chars.len()
        invariant
            chars@ == text@,
            forall|j: int| 0 <= j < i ==> text@[j] != wanted,
    {
        if chars[i] == wanted {
            assert(text@[i as int] == wanted);
            return true;
        }
    }
    false
}

} // verus!
