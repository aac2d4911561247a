use nodescale_state::digest::{sha256_fingerprint, sha256_hex};
use nodescale_state::error::{conflict, map_constraint, storage_result};
use nodescale_state::ids::generation;
use nodescale_state::rules::{
    n4_approved_tag, n6_audit_secret_value, safe_identifier, valid_sha256_fingerprint,
};
use nodescale_state::text::{
    byte_len, char_is_space, contains_text, decimal, hex_lower, is_before, is_space_free, join,
    lower, starts_with,
};
use nodescale_state::{
    DatabaseFailure, Generation, ReconciliationFailure, StateError, StoredGeneration, Timestamp,
};

#[test]
fn decimal_has_no_leading_zeros() {
    assert_eq!(decimal(0), "0");
    assert_eq!(decimal(9), "9");
    assert_eq!(decimal(10), "10");
    assert_eq!(decimal(1_002_003), "1002003");
    assert_eq!(decimal(u64::MAX), "18446744073709551615");
}

#[test]
fn hex_is_lower_case_and_padded() {
    assert_eq!(hex_lower(&[0, 1, 15, 16, 171, 255]), "00010f10abff");
    assert_eq!(hex_lower(&[]), "");
}

#[test]
fn white_space_is_what_unicode_says() {
    for code in 0..=0x10ffffu32 {
        if let Some(c) = char::from_u32(code) {
            assert_eq!(char_is_space(c), c.is_whitespace(), "{code:x}");
        }
    }
    assert!(is_space_free("a-b"));
    assert!(!is_space_free("a\u{2003}b"));
}

#[test]
fn texts_are_ordered_as_strings() {
    let texts = ["", "a", "a-", "aa", "ab", "b", "é", "\u{10ffff}"];
    for left in texts {
        for right in texts {
            assert_eq!(is_before(left, right), left < right, "{left} {right}");
        }
    }
}

#[test]
fn prefixes_and_substrings() {
    assert!(starts_with("secret://x", "secret://"));
    assert!(!starts_with("secret:/", "secret://"));
    assert!(contains_text("my_api_key_2", "api_key"));
    assert!(contains_text("api_key", "api_key"));
    assert!(!contains_text("api-key", "api_key"));
    assert!(contains_text("x", ""));
    assert_eq!(join("ab", "cd"), "abcd");
    assert_eq!(byte_len("é"), 2);
    assert_eq!(lower("Provider-É9"), "provider-É9");
}

#[test]
fn sha256_of_known_texts() {
    assert_eq!(
        sha256_hex(b"abc"),
        "ba7816bf8f01cfea414140de5dae2223b00361a396177a9cb410ff61f20015ad"
    );
    assert_eq!(
        sha256_fingerprint(b""),
        "sha256:e3b0c44298fc1c149afbf4c8996fb92427ae41e4649b934ca495991b7852b855"
    );
    assert!(valid_sha256_fingerprint(&sha256_fingerprint(b"anything")));
}

#[test]
fn fingerprints_are_canonical() {
    let good = format!("sha256:{}", "0a".repeat(32));
    assert!(valid_sha256_fingerprint(&good));
    assert!(!valid_sha256_fingerprint(&good.to_uppercase()));
    assert!(!valid_sha256_fingerprint(&good[..70]));
    assert!(!valid_sha256_fingerprint(&format!("{good}0")));
    assert!(!valid_sha256_fingerprint(&format!("sha256:{}g", "0".repeat(63))));
    assert!(!valid_sha256_fingerprint(&format!("sha512:{}", "0a".repeat(32))));
}

#[test]
fn identifiers_are_short_and_plain() {
    assert!(safe_identifier("user:7.a-b_C"));
    assert!(!safe_identifier(""));
    assert!(!safe_identifier("a b"));
    assert!(!safe_identifier("a/b"));
    assert!(!safe_identifier("é"));
    assert!(safe_identifier(&"a".repeat(255)));
    assert!(!safe_identifier(&"a".repeat(256)));
}

#[test]
fn only_listed_tags_are_approved() {
    for tag in ["node", "worker", "controller", "profile-host", "observer", "admin"] {
        assert!(n4_approved_tag(&format!("tag:nodescale-{tag}")));
    }
    assert!(!n4_approved_tag("tag:nodescale-root"));
    assert!(!n4_approved_tag("nodescale-node"));
}

#[test]
fn binding_secrets_are_recognized() {
    let nonce = format!("nsbind_{}A", "b".repeat(42));
    assert!(n6_audit_secret_value(&nonce));
    for last in "AEIMQUYcgkosw048".chars() {
        assert!(n6_audit_secret_value(&format!("nsbind_{}{last}", "-".repeat(42))));
    }
    assert!(!n6_audit_secret_value(&format!("nsbind_{}B", "b".repeat(42))));
    assert!(!n6_audit_secret_value(&format!("nsbind_{}A", "b".repeat(41))));
    assert!(!n6_audit_secret_value(&format!("nsbind_{}!A", "b".repeat(41))));
    assert!(n6_audit_secret_value("$argon2id$v=19$m=19456,t=2,p=1$salt$hash"));
    assert!(!n6_audit_secret_value("$argon2id$v=19$m=4096,t=2,p=1$salt$hash"));
}

#[test]
fn instants_are_written_and_read() {
    let epoch = Timestamp::new(0, 0).unwrap();
    assert_eq!(epoch.to_rfc3339(), "1970-01-01T00:00:00+00:00");
    assert_eq!(epoch.timestamp_millis(), 0);
    let later = Timestamp::new(1_700_000_000, 123_000_000).unwrap();
    assert_eq!(later.to_rfc3339(), "2023-11-14T22:13:20.123+00:00");
    assert_eq!(later.timestamp_millis(), 1_700_000_000_123);
    assert_eq!(Timestamp::parse("2023-11-14T23:13:20.123+01:00"), Some(later));
    assert_eq!(Timestamp::parse("2023-11-14T22:13:20.123Z"), Some(later));
    assert_eq!(Timestamp::parse("yesterday"), None);
    assert_eq!(Timestamp::parse(""), None);
    assert!(epoch.is_before(&later));
    assert!(!later.is_before(&epoch));
    assert!(!later.is_before(&later));
}

#[test]
fn every_kind_of_instant_reads_back() {
    for (seconds, nanoseconds) in [
        (-8334601228800, 0),
        (8210266876799, 999_999_999),
        (8210266876799, 1_999_999_999),
        (-1, 999_999_999),
        (59, 1_500_000_000),
        (-62135596801, 1),
        (253402300800, 120_000),
        (1_700_000_000, 1),
        (1_700_000_000, 1_000),
        (1_700_000_000, 1_000_000),
    ] {
        let instant = Timestamp::new(seconds, nanoseconds).unwrap();
        let text = instant.to_rfc3339();
        assert_eq!(Timestamp::parse(&text), Some(instant), "{text}");
    }
}

#[test]
fn instants_out_of_range_are_none() {
    assert_eq!(Timestamp::new(-8334601228801, 0), None);
    assert_eq!(Timestamp::new(8210266876800, 0), None);
    assert_eq!(Timestamp::new(0, 1_000_000_000), None);
    assert_eq!(Timestamp::new(59, 2_000_000_000), None);
    assert!(Timestamp::new(59, 1_999_999_999).is_some());
    assert!(Timestamp::new(-1, 1_000_000_000).is_some());
    assert!(Timestamp::from_timestamp_millis(-8334601228800_000).is_some());
    assert_eq!(Timestamp::from_timestamp_millis(-8334601228800_001), None);
    assert!(Timestamp::from_timestamp_millis(8210266876799_999).is_some());
    assert_eq!(Timestamp::from_timestamp_millis(8210266876800_000), None);
    assert_eq!(
        Timestamp::from_timestamp_millis(-1),
        Timestamp::new(-1, 999_000_000)
    );
    assert_eq!(
        Timestamp::from_timestamp_millis(1_234),
        Timestamp::new(1, 234_000_000)
    );
}

#[test]
fn errors_have_their_messages() {
    assert_eq!(conflict("x").message(), "state conflict: x");
    assert_eq!(
        StateError::StaleGeneration { expected: 3, actual: 12 }.message(),
        "stale generation: expected 3, actual 12"
    );
    assert_eq!(
        StateError::UnsupportedSchema { found: 12, supported: 11 }.message(),
        "unsupported schema version 12; maximum supported is 11"
    );
    assert_eq!(StateError::Sqlite("disk".into()).message(), "SQLite state error: disk");
    assert_eq!(StateError::Serialization("eof".into()).message(), "serialization error: eof");
    assert_eq!(
        StateError::UnsafeAuditMetadata("token".into()).message(),
        "audit metadata is unsafe: token"
    );
    assert_eq!(StateError::InjectedFailure.message(), "injected transaction failure");
    assert_eq!(
        StateError::ActivationGated.message(),
        "trusted activation remains gated in N0C"
    );
    assert_eq!(StateError::NotFound("n".into()).message(), "record not found: n");
    assert_eq!(
        StateError::MutationAuthorizationDenied("no").message(),
        "mutation authorization denied: no"
    );
    assert_eq!(ReconciliationFailure::Unreachable.message(), "provider unreachable");
    assert_eq!(
        ReconciliationFailure::AuthenticationFailed.message(),
        "provider authentication failed"
    );
    assert_eq!(ReconciliationFailure::Incompatible.message(), "provider is incompatible");
    assert_eq!(ReconciliationFailure::Malformed.message(), "provider response is malformed");
    assert_eq!(ReconciliationFailure::IdentityConflict.message(), "provider identity conflict");
    assert_eq!(
        ReconciliationFailure::State(conflict("x")).message(),
        "state failure: state conflict: x"
    );
}

#[test]
fn violated_constraints_are_conflicts() {
    let violated = DatabaseFailure { constraint_violated: true, text: "UNIQUE".into() };
    assert_eq!(map_constraint(violated), StateError::Conflict("UNIQUE".into()));
    let broken = DatabaseFailure { constraint_violated: false, text: "disk".into() };
    assert_eq!(storage_result(Err(broken)), Err(StateError::Sqlite("disk".into())));
    assert_eq!(storage_result(Ok(())), Ok(()));
}

#[test]
fn stored_generations_are_checked() {
    let good = StoredGeneration { number: 7, refusal: None };
    assert_eq!(generation(&good), Ok(Generation { value: 7 }));
    let bad = StoredGeneration { number: 0, refusal: Some("zero".into()) };
    assert_eq!(generation(&bad), Err(StateError::Conflict("zero".into())));
}
