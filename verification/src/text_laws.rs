//! What holds of the texts that records are made of: how they are compared, and
//! which of them the rules admit.

use crate::config::{
    headscale_problem, is_compatibility_pin, is_host_char, is_https_origin, is_secret_reference,
    is_tailnet, is_tailnet_char, HeadscaleImportRow,
};
use crate::digest::{digest_text, fingerprint_text, sha256_bytes};
use crate::error::{StateError, StateErrorView};
use crate::json::{tree_text, JsonTree};
use crate::lifecycle::principal_problem;
use crate::metadata::{
    first_problem, is_banned_key, is_safe_text, key_problem, members_of, metadata_json,
    text_problem, tree_of, trees_of, MetadataValue, SanitizedMetadata,
};
use crate::rules::{
    is_approved_tag, is_audit_secret, is_binding_nonce, is_fingerprint, is_identifier,
    is_identifier_char, is_nonce_char,
};
use crate::store::concatenated;
use crate::text::{
    ascii_lower, byte_length, decimal_text, has_prefix, has_substring, hex_text, is_space,
    no_space, occurs_at, text_before,
};
use vstd::prelude::*;
use vstd::utf8::encode_utf8;

verus! {

/// The lower-case form of a text has the same length; each of the letters `A`
/// to `Z` becomes the small one, and everything else stays.
pub proof fn law_lower_case_changes_capital_letters_only(text: Seq<char>, i: int)
    requires
        0 <= i < text.len(),
    ensures
        ascii_lower(text).len() == text.len(),
        !('A' <= text[i] && text[i] <= 'Z') ==> ascii_lower(text)[i] == text[i],
        'A' <= text[i] && text[i] <= 'Z' ==> ascii_lower(text)[i] as u32 == text[i] as u32 + 32,
        !('A' <= ascii_lower(text)[i] && ascii_lower(text)[i] <= 'Z'),
{
}

/// A text begins with another if their characters agree as far as the other
/// goes.
pub proof fn law_prefix_agrees(text: Seq<char>, prefix: Seq<char>)
    ensures
        has_prefix(text, prefix) <==> {
            &&& prefix.len() <= text.len()
            &&& forall|i: int| 0 <= i < prefix.len() ==> text[i] == #[trigger] prefix[i]
        },
{
    if prefix.len() <= text.len() && forall|i: int|
        0 <= i < prefix.len() ==> text[i] == #[trigger] prefix[i] {
        assert(text.take(prefix.len() as int) =~= prefix);
    }
    if has_prefix(text, prefix) {
        assert forall|i: int| 0 <= i < prefix.len() implies text[i] == #[trigger] prefix[i] by {
            assert(text.take(prefix.len() as int)[i] == text[i]);
        }
    }
}

/// A text holds another wherever it stands in it.
pub proof fn law_substring_is_found(head: Seq<char>, needle: Seq<char>, tail: Seq<char>)
    ensures
        has_substring(head + needle + tail, needle),
        needle.len() > (head + tail).len() ==> !has_substring(head + tail, needle),
{
    let text = head + needle + tail;
    let at = head.len() as int;
    assert(text.subrange(at, at + needle.len()) =~= needle);
    assert(occurs_at(text, needle, at));
}

/// A text that holds another is made of what is before it, of it, and of what is
/// behind it.
pub proof fn law_found_substring_stands_in_the_text(text: Seq<char>, needle: Seq<char>)
    requires
        has_substring(text, needle),
    ensures
        exists|at: int|
            #![trigger text.take(at)]
            0 <= at <= text.len() - needle.len() && text == text.take(at) + needle + text.skip(
                at + needle.len(),
            ),
{
    let at = choose|at: int| occurs_at(text, needle, at);
    assert(text =~= text.take(at) + text.subrange(at, at + needle.len()) + text.skip(
        at + needle.len(),
    ));
}

/// One text comes before another exactly if they agree up to some place where
/// the one ends and the other goes on, or where the character of the one is
/// smaller.
pub proof fn law_texts_are_ordered_by_their_first_difference(
    left: Seq<char>,
    right: Seq<char>,
    at: int,
)
    requires
        0 <= at <= left.len(),
        at <= right.len(),
        forall|i: int| 0 <= i < at ==> left[i] == right[i],
        at < left.len() && at < right.len() ==> left[at] != right[at],
    ensures
        at == right.len() ==> !text_before(left, right),
        at == left.len() && at < right.len() ==> text_before(left, right),
        at < left.len() && at < right.len() ==> (text_before(left, right) <==> left[at]
            < right[at]),
    decreases at,
{
    if at > 0 {
        assert forall|i: int| 0 <= i < at - 1 implies left.drop_first()[i]
            == right.drop_first()[i] by {
            assert(left[i + 1] == right[i + 1]);
        }
        assert(left[0] == right[0]);
        law_texts_are_ordered_by_their_first_difference(
            left.drop_first(),
            right.drop_first(),
            at - 1,
        );
    }
}

/// Each byte is two digits of hexadecimal, the higher one first.
pub proof fn law_hexadecimal_is_two_digits_a_byte(bytes: Seq<u8>, i: int)
    requires
        0 <= i < bytes.len(),
    ensures
        hex_text(bytes).len() == 2 * bytes.len(),
        bytes[i] / 16 < 10 ==> hex_text(bytes)[2 * i] as u32 == 48 + bytes[i] / 16,
        bytes[i] / 16 >= 10 ==> hex_text(bytes)[2 * i] as u32 == 87 + bytes[i] / 16,
        bytes[i] % 16 < 10 ==> hex_text(bytes)[2 * i + 1] as u32 == 48 + bytes[i] % 16,
        bytes[i] % 16 >= 10 ==> hex_text(bytes)[2 * i + 1] as u32 == 87 + bytes[i] % 16,
{
}

/// The decimal text of a number ends with its last digit; the rest, if there is
/// more, is the text of its tenth.
pub proof fn law_decimal_text_ends_with_the_last_digit(value: nat)
    ensures
        decimal_text(value).len() >= 1,
        decimal_text(value).last() as u32 == 48 + value % 10,
        value < 10 ==> decimal_text(value).len() == 1,
        value >= 10 ==> decimal_text(value).drop_last() == decimal_text(value / 10),
{
    if value >= 10 {
        assert(decimal_text(value).drop_last() =~= decimal_text(value / 10));
    }
}

/// A fingerprint is `sha256:` and sixty-four digits of lower-case hexadecimal.
pub proof fn law_fingerprint_form(value: Seq<char>)
    ensures
        is_fingerprint(value) <==> {
            &&& value.len() == 71
            &&& value.take(7) == "sha256:"@
            &&& forall|i: int|
                7 <= i < 71 ==> ('0' <= #[trigger] value[i] && value[i] <= '9') || ('a'
                    <= value[i] && value[i] <= 'f')
        },
{
    reveal_strlit("sha256:");
    assert("sha256:"@.len() == 7);
}

/// The fingerprint of some bytes is `sha256:` and their digest.
pub proof fn law_fingerprint_is_the_prefixed_digest(data: Seq<u8>)
    ensures
        fingerprint_text(data).len() == 7 + digest_text(data).len(),
        fingerprint_text(data).take(7) == "sha256:"@,
        fingerprint_text(data).skip(7) == digest_text(data),
{
    reveal_strlit("sha256:");
    assert("sha256:"@.len() == 7);
    assert(fingerprint_text(data).take(7) =~= "sha256:"@);
    assert(fingerprint_text(data).skip(7) =~= digest_text(data));
}

/// A safe identifier is one to 255 ASCII letters, digits, hyphens, underscores,
/// colons and dots; only such a text names a provider principal.
pub proof fn law_identifier_form(value: Seq<char>)
    ensures
        is_identifier(value) <==> {
            &&& value.len() != 0
            &&& value.len() < 256
            &&& forall|i: int|
                0 <= i < value.len() ==> {
                    let c = #[trigger] value[i];
                    ||| 'a' <= c && c <= 'z'
                    ||| 'A' <= c && c <= 'Z'
                    ||| '0' <= c && c <= '9'
                    ||| c == '-'
                    ||| c == '_'
                    ||| c == ':'
                    ||| c == '.'
                }
        },
        is_identifier(value) <==> principal_problem(value) is None,
        !is_identifier(value) ==> principal_problem(value) == Some(
            StateErrorView::Conflict("invalid N4 provider principal"@),
        ),
{
    if value.len() != 0 && value.len() < 256 && forall|i: int|
        0 <= i < value.len() ==> {
            let c = #[trigger] value[i];
            ||| 'a' <= c && c <= 'z'
            ||| 'A' <= c && c <= 'Z'
            ||| '0' <= c && c <= '9'
            ||| c == '-'
            ||| c == '_'
            ||| c == ':'
            ||| c == '.'
        } {
        assert forall|i: int| 0 <= i < value.len() implies is_identifier_char(
            #[trigger] value[i],
        ) by {}
    }
}

/// A tag is approved exactly if it is one of the six of this project.
pub proof fn law_approved_tags(value: Seq<char>)
    ensures
        is_approved_tag(value) <==> value == "tag:nodescale-node"@ || value
            == "tag:nodescale-worker"@ || value == "tag:nodescale-controller"@ || value
            == "tag:nodescale-profile-host"@ || value == "tag:nodescale-observer"@ || value
            == "tag:nodescale-admin"@,
{
}

/// A binding nonce is `nsbind_` and forty-three characters of URL-safe base64,
/// the last of which leaves no bit over.
pub proof fn law_binding_nonce_form(value: Seq<char>)
    ensures
        is_binding_nonce(value) <==> {
            &&& value.len() == 50
            &&& value.take(7) == "nsbind_"@
            &&& forall|i: int|
                7 <= i < 50 ==> {
                    let c = #[trigger] value[i];
                    ||| 'a' <= c && c <= 'z'
                    ||| 'A' <= c && c <= 'Z'
                    ||| '0' <= c && c <= '9'
                    ||| c == '-'
                    ||| c == '_'
                }
            &&& "AEIMQUYcgkosw048"@.contains(value[49])
        },
        is_audit_secret(value) <==> is_binding_nonce(value) || (value.len() >= 31 && value.take(31)
            == "$argon2id$v=19$m=19456,t=2,p=1$"@),
{
    reveal_strlit("nsbind_");
    reveal_strlit("$argon2id$v=19$m=19456,t=2,p=1$");
    assert("nsbind_"@.len() == 7);
    assert("$argon2id$v=19$m=19456,t=2,p=1$"@.len() == 31);
    if value.len() == 50 && forall|i: int|
        7 <= i < 50 ==> {
            let c = #[trigger] value[i];
            ||| 'a' <= c && c <= 'z'
            ||| 'A' <= c && c <= 'Z'
            ||| '0' <= c && c <= '9'
            ||| c == '-'
            ||| c == '_'
        } {
        assert forall|i: int| 7 <= i < value.len() implies is_nonce_char(
            #[trigger] value[i],
        ) by {}
    }
}

/// White space is the tab and the line breaks, the blank, and the blanks beyond
/// ASCII; no letter, digit or sign of ASCII is.
pub proof fn law_white_space(c: char)
    ensures
        is_space(c) <==> (9 <= c as u32 <= 13) || c as u32 == 32 || c as u32 == 0x85 || c as u32
            == 0xa0 || c as u32 == 0x1680 || (0x2000 <= c as u32 <= 0x200a) || c as u32 == 0x2028
            || c as u32 == 0x2029 || c as u32 == 0x202f || c as u32 == 0x205f || c as u32 == 0x3000,
        '!' <= c && c <= '~' ==> !is_space(c),
{
}

/// The address of a Headscale server is `https://` and a host, with nothing
/// after it and no white space in it.
pub proof fn law_server_url_form(url: Seq<char>)
    ensures
        is_https_origin(url) <==> {
            &&& url.len() >= 9
            &&& url.take(8) == "https://"@
            &&& forall|i: int| 0 <= i < url.len() ==> !is_space(#[trigger] url[i])
            &&& forall|i: int|
                8 <= i < url.len() ==> #[trigger] url[i] != '/' && url[i] != '@' && url[i] != '?'
                    && url[i] != '#'
        },
{
    reveal_strlit("https://");
    assert("https://"@.len() == 8);
    if url.len() >= 9 && forall|i: int|
        8 <= i < url.len() ==> #[trigger] url[i] != '/' && url[i] != '@' && url[i] != '?' && url[i]
            != '#' {
        assert forall|i: int| 8 <= i < url.len() implies is_host_char(
            #[trigger] url[i],
        ) by {}
    }
}

/// A reference to a secret is `secret://` and what follows, of at most 255 bytes
/// and without white space; a version that a provider is held to is of one to 64
/// bytes without white space; a tailnet is named by one to 256 letters, digits,
/// dots, hyphens, underscores and at signs.
pub proof fn law_reference_pin_and_tailnet_form(text: Seq<char>)
    ensures
        is_secret_reference(text) <==> {
            &&& text.len() >= 9
            &&& text.take(9) == "secret://"@
            &&& encode_utf8(text).len() <= 255
            &&& forall|i: int| 0 <= i < text.len() ==> !is_space(#[trigger] text[i])
        },
        is_compatibility_pin(text) <==> {
            &&& text.len() >= 1
            &&& encode_utf8(text).len() <= 64
            &&& forall|i: int| 0 <= i < text.len() ==> !is_space(#[trigger] text[i])
        },
        is_tailnet(text) <==> {
            &&& text.len() >= 1
            &&& text.len() <= 256
            &&& forall|i: int|
                0 <= i < text.len() ==> {
                    let c = #[trigger] text[i];
                    ||| 'a' <= c && c <= 'z'
                    ||| 'A' <= c && c <= 'Z'
                    ||| '0' <= c && c <= '9'
                    ||| c == '.'
                    ||| c == '-'
                    ||| c == '_'
                    ||| c == '@'
                }
        },
{
    reveal_strlit("secret://");
    assert("secret://"@.len() == 9);
    if text.len() >= 1 && text.len() <= 256 && forall|i: int|
        0 <= i < text.len() ==> {
            let c = #[trigger] text[i];
            ||| 'a' <= c && c <= 'z'
            ||| 'A' <= c && c <= 'Z'
            ||| '0' <= c && c <= '9'
            ||| c == '.'
            ||| c == '-'
            ||| c == '_'
            ||| c == '@'
        } {
        assert forall|i: int| 0 <= i < text.len() implies is_tailnet_char(
            #[trigger] text[i],
        ) by {}
    }
}

/// A Headscale import is refused for the first of its texts that does not have
/// its form, and for none if all have.
pub proof fn law_headscale_import_is_refused_for_its_texts(
    server_url: Seq<char>,
    secret_reference: Seq<char>,
    compatibility_pin: Seq<char>,
    row: HeadscaleImportRow,
)
    ensures
        headscale_problem(server_url, secret_reference, compatibility_pin) is None
            <==> is_https_origin(server_url) && is_secret_reference(secret_reference)
            && is_compatibility_pin(compatibility_pin),
        !is_https_origin(server_url) ==> headscale_problem(
            server_url,
            secret_reference,
            compatibility_pin,
        ) == Some(
            StateErrorView::Conflict("Headscale server URL must be a clean HTTPS origin"@),
        ),
        is_https_origin(server_url) && !is_secret_reference(secret_reference) ==> headscale_problem(
            server_url,
            secret_reference,
            compatibility_pin,
        ) == Some(
            StateErrorView::Conflict(
                "credential must be an opaque secret:// reference, not plaintext"@,
            ),
        ),
        is_https_origin(server_url) && is_secret_reference(secret_reference)
            && !is_compatibility_pin(compatibility_pin) ==> headscale_problem(
            server_url,
            secret_reference,
            compatibility_pin,
        ) == Some(StateErrorView::Conflict("Headscale compatibility pin is invalid"@)),
        row.problem() is None <==> {
            &&& row.provider_instance_id is Ok
            &&& is_https_origin(row.server_url@)
            &&& is_secret_reference(row.opaque_secret_reference@)
            &&& is_compatibility_pin(row.compatibility_pin@)
            &&& row.custom_root_ca_sha256 matches Some(text) ==> is_fingerprint(text@)
        },
{
}

/// Nothing is recorded under a key that holds, in capital letters or small, one
/// of the words for a secret, nor under a key that is a secret; and no text is
/// recorded that is a secret or longer than 1024 bytes.
pub proof fn law_secrets_are_not_recorded(text: Seq<char>)
    ensures
        key_problem(text) is None <==> {
            &&& !has_substring(ascii_lower(text), "secret"@)
            &&& !has_substring(ascii_lower(text), "token"@)
            &&& !has_substring(ascii_lower(text), "password"@)
            &&& !has_substring(ascii_lower(text), "credential"@)
            &&& !has_substring(ascii_lower(text), "api_key"@)
            &&& !has_substring(ascii_lower(text), "private_key"@)
            &&& !has_substring(ascii_lower(text), "nonce"@)
            &&& !is_audit_secret(text)
        },
        is_banned_key(text) ==> key_problem(text) == Some(
            StateErrorView::UnsafeAuditMetadata(text),
        ),
        !is_banned_key(text) && is_audit_secret(text) ==> key_problem(text) == Some(
            StateErrorView::UnsafeAuditMetadata("N6 secret key"@),
        ),
        text_problem(text) is None <==> encode_utf8(text).len() <= 1024 && !is_audit_secret(text),
        is_safe_text(text) <==> text_problem(text) is None,
        encode_utf8(text).len() > 1024 ==> text_problem(text) == Some(
            StateErrorView::UnsafeAuditMetadata("oversized string"@),
        ),
        encode_utf8(text).len() <= 1024 && is_audit_secret(text) ==> text_problem(text) == Some(
            StateErrorView::UnsafeAuditMetadata("N6 secret value"@),
        ),
{
}

/// The length of a text is that of its UTF-8 form, and a text is free of white
/// space if none of its characters is white space.
pub proof fn law_length_is_counted_in_bytes(text: Seq<char>)
    ensures
        byte_length(text) == encode_utf8(text).len(),
        no_space(text) <==> forall|i: int| 0 <= i < text.len() ==> !is_space(#[trigger] text[i]),
{
}

/// What is kept of presented metadata is the digest of its JSON text and nothing
/// else; of none it is the empty object.
pub proof fn law_presented_metadata_is_kept_as_a_digest(metadata: SanitizedMetadata)
    ensures
        metadata.is_empty_object() ==> metadata.digest_document() == "{}"@,
        !metadata.is_empty_object() ==> metadata.digest_document() == "{\"sha256\":\""@
            + digest_text(encode_utf8(metadata_json(metadata.value()))) + "\"}"@,
        metadata.is_empty_object() <==> metadata.value() is Object
            && metadata.value()->Object_0.entries().len() == 0,
{
}

/// Numbers, booleans and the null value hold nothing that could be refused.
pub proof fn law_plain_values_are_accepted(value: MetadataValue)
    requires
        value is Null || value is Bool || value is Number,
    ensures
        first_problem(value) is None,
{
}

/// A value enters the JSON text as what it is, an array element by element and
/// an object key by key.
pub proof fn law_metadata_is_written_as_it_is(value: MetadataValue)
    ensures
        metadata_json(value) == tree_text(tree_of(value)),
        value is Null ==> tree_of(value) == JsonTree::Null,
        value matches MetadataValue::Bool(flag) ==> tree_of(value) == JsonTree::Bool(flag),
        value matches MetadataValue::Number(number) ==> tree_of(value) == JsonTree::Number(number),
        value matches MetadataValue::Text(text) ==> tree_of(value) == JsonTree::Text(text@),
        value matches MetadataValue::Array(values) ==> tree_of(value) == JsonTree::Array(
            trees_of(values@),
        ),
        value matches MetadataValue::Object(object) ==> tree_of(value) == JsonTree::Object(
            members_of(object.entries()),
        ),
{
}

/// Each further element of an array is written behind the others, and each
/// further entry of an object under its key, in place of an earlier one.
pub proof fn law_metadata_is_written_part_by_part(
    values: Seq<MetadataValue>,
    value: MetadataValue,
    entries: Seq<(String, MetadataValue)>,
    entry: (String, MetadataValue),
)
    ensures
        trees_of(Seq::empty()).len() == 0,
        trees_of(values.push(value)) == trees_of(values).push(tree_of(value)),
        members_of(Seq::empty()) == Map::<Seq<char>, JsonTree>::empty(),
        members_of(entries.push(entry)) == members_of(entries).insert(entry.0@, tree_of(entry.1)),
{
    assert(values.push(value).drop_last() =~= values);
    assert(entries.push(entry).drop_last() =~= entries);
}

/// A digest is shown in hexadecimal, and texts put together come one after the
/// other.
pub proof fn law_digest_is_shown_in_hexadecimal(data: Seq<u8>, texts: Seq<String>, last: String)
    ensures
        digest_text(data) == hex_text(sha256_bytes(data)),
        concatenated(Seq::empty()).len() == 0,
        concatenated(texts.push(last)) == concatenated(texts) + last@,
{
    assert(texts.push(last).drop_last() =~= texts);
}

/// Metadata is accepted as it is, and only if nothing in it is refused.
pub proof fn law_sanitizing_metadata(
    value: MetadataValue,
    result: Result<SanitizedMetadata, StateError>,
)
    requires
        call_ensures(SanitizedMetadata::new, (value,), result),
    ensures
        result is Ok <==> first_problem(value) is None,
        result matches Ok(accepted) ==> accepted.value() == value,
        (value matches MetadataValue::Text(text) && encode_utf8(text@).len() > 1024) ==> (
        result matches Err(error) && error@ == StateErrorView::UnsafeAuditMetadata(
            "oversized string"@,
        )),
        (value matches MetadataValue::Text(text) && encode_utf8(text@).len() <= 1024
            && is_audit_secret(text@)) ==> (result matches Err(error) && error@
            == StateErrorView::UnsafeAuditMetadata("N6 secret value"@)),
        (value matches MetadataValue::Text(text) && encode_utf8(text@).len() <= 1024
            && !is_audit_secret(text@)) ==> result is Ok,
{
}

} // verus!
