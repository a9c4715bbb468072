use redletters_auth::auth::{validate_token, AuthError, AuthToken};
use redletters_auth::fallback::{
    fallback_path_under, fallback_read_result, permissions_too_open, FileReadOutcome,
};
use redletters_auth::resolver::{
    resolve_fallback, resolve_keychain, resolve_outcome, Resolution,
};

#[test]
fn test_validate_token() {
    // One character short of the 24-character minimum, so rejected.
    assert!(validate_token("rl_abcdefghij1234567890").is_err());
    assert!(validate_token("invalid_token").is_err());
    assert!(validate_token("rl_short").is_err());
}

#[test]
fn validate_accepts_minimum_length_token() {
    assert!(validate_token("rl_abcdefghij12345678901").is_ok());
    // The prefix padded to exactly 24 characters is accepted, even with
    // an all-identical suffix: validation is syntactic, not a strength
    // check.
    assert!(validate_token("rl_aaaaaaaaaaaaaaaaaaaaa").is_ok());
}

#[test]
fn validate_rejects_edge_cases() {
    assert!(matches!(validate_token(""), Err(AuthError::InvalidFormat)));
    // Long enough but without the prefix.
    assert!(matches!(
        validate_token("xx_abcdefghij12345678901"),
        Err(AuthError::InvalidFormat)
    ));
    // Exactly the prefix, far too short.
    assert!(matches!(validate_token("rl_"), Err(AuthError::InvalidFormat)));
}

#[test]
fn keychain_hit_resolves_without_fallback() {
    let token = "rl_abcdefghij12345678901".to_string();
    // Whatever the fallback tier holds, a well-formed keychain token wins.
    let r = resolve_outcome(Ok(token.clone()), Ok("rl_fallback_token_0000000".to_string()));
    assert_eq!(
        r,
        Ok(AuthToken {
            token,
            source: "keychain".to_string(),
        })
    );
}

#[test]
fn malformed_keychain_token_is_surfaced_not_masked() {
    // A malformed secure-store token fails the resolution even though the
    // fallback tier holds a well-formed one.
    let r = resolve_outcome(
        Ok("rl_short".to_string()),
        Ok("rl_abcdefghij12345678901".to_string()),
    );
    assert_eq!(r, Err(AuthError::InvalidFormat));
}

#[test]
fn fallback_token_is_used_when_keychain_is_empty() {
    let r = resolve_outcome(
        Err(AuthError::NotFound),
        Ok("rl_abcdefghij12345678901".to_string()),
    );
    assert_eq!(
        r,
        Ok(AuthToken {
            token: "rl_abcdefghij12345678901".to_string(),
            source: "file".to_string(),
        })
    );
}

#[test]
fn fallback_file_content_is_trimmed_before_validation() {
    // The raw file text carries surrounding whitespace and a newline; the
    // candidate handed on is the trimmed token.
    let raw = "  rl_abcdefghij12345678901\n".to_string();
    let read = fallback_read_result(FileReadOutcome::Content(raw));
    assert_eq!(read, Ok("rl_abcdefghij12345678901".to_string()));
    let r = resolve_fallback(read);
    assert_eq!(
        r,
        Ok(AuthToken {
            token: "rl_abcdefghij12345678901".to_string(),
            source: "file".to_string(),
        })
    );
}

#[test]
fn both_tiers_empty_resolves_to_not_found() {
    let r = resolve_outcome(Err(AuthError::NotFound), Err(AuthError::NotFound));
    assert_eq!(r, Err(AuthError::NotFound));
}

#[test]
fn fallback_read_failure_resolves_to_not_found() {
    // A fallback-tier I/O failure is not surfaced by the resolver: with
    // the keychain empty it still ends as NotFound.
    let read = fallback_read_result(FileReadOutcome::ReadFailure("disk gone".to_string()));
    assert_eq!(read, Err(AuthError::FileError("disk gone".to_string())));
    let r = resolve_outcome(Err(AuthError::NotFound), read);
    assert_eq!(r, Err(AuthError::NotFound));
}

#[test]
fn resolve_keychain_steps() {
    let done = resolve_keychain(Ok("rl_abcdefghij12345678901".to_string()));
    assert_eq!(
        done,
        Resolution::Done(Ok(AuthToken {
            token: "rl_abcdefghij12345678901".to_string(),
            source: "keychain".to_string(),
        }))
    );
    let invalid = resolve_keychain(Ok("rl_short".to_string()));
    assert_eq!(invalid, Resolution::Done(Err(AuthError::InvalidFormat)));
    let missing = resolve_keychain(Err(AuthError::NotFound));
    assert_eq!(missing, Resolution::TryFallback);
}

#[test]
fn fallback_absence_maps_to_not_found() {
    assert_eq!(
        fallback_read_result(FileReadOutcome::Absent),
        Err(AuthError::NotFound)
    );
    assert_eq!(
        fallback_read_result(FileReadOutcome::NoHome),
        Err(AuthError::NotFound)
    );
}

#[test]
fn fallback_path_has_fixed_components() {
    let p = fallback_path_under("/home/user");
    assert_eq!(p, "/home/user/.greek2english/.auth_token");
}

#[test]
fn open_permissions_warn_but_do_not_fail_a_read() {
    // Owner read/write only: quiet.
    assert!(!permissions_too_open(0o600));
    assert!(!permissions_too_open(0o100600));
    // Any group or other bit: advisory warning...
    assert!(permissions_too_open(0o644));
    assert!(permissions_too_open(0o606));
    assert!(permissions_too_open(0o660));
    // ...and the read still succeeds regardless.
    let read = fallback_read_result(FileReadOutcome::Content(
        "rl_abcdefghij12345678901\n".to_string(),
    ));
    assert_eq!(read, Ok("rl_abcdefghij12345678901".to_string()));
}
