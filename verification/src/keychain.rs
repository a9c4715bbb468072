//! The secure tier: the platform credential store, reached through the
//! keyring crate and addressed by a fixed (service, account) pair. Every
//! operation here touches persistent state owned by the operating
//! system, so the wrappers promise nothing about which outcome comes
//! back; the callers state what holds of each outcome.

use vstd::prelude::*;
use crate::auth::{AuthError, spec_valid_token, validate_token};

verus! {

/// Service identifier under which the token is stored.
pub const KEYCHAIN_SERVICE: &'static str = "com.redletters.engine";

/// Account identifier under which the token is stored.
pub const KEYCHAIN_ACCOUNT: &'static str = "auth_token";

#[verifier::external_type_specification]
#[verifier::external_body]
pub struct ExEntry(keyring::Entry);

/// Relies on keyring::Entry::new: builds a handle addressed by the
/// (service, user) pair in the platform credential store; fails when the
/// store rejects the pair. The error's message is kept.
#[verifier::external_body]
fn entry_new(service: &str, account: &str) -> (r: Result<keyring::Entry, String>)
{
    keyring::Entry::new(service, account).map_err(|e| e.to_string())
}

/// Relies on keyring::Entry::get_password: the credential stored for the
/// entry, or an error (absent entry, locked store, platform failure).
/// The error's message is kept.
#[verifier::external_body]
fn entry_get_password(entry: &keyring::Entry) -> (r: Result<String, String>)
{
    entry.get_password().map_err(|e| e.to_string())
}

/// Relies on keyring::Entry::set_password: stores or overwrites the
/// credential for the entry. The error's message is kept.
#[verifier::external_body]
fn entry_set_password(entry: &keyring::Entry, value: &str) -> (r: Result<(), String>)
{
    entry.set_password(value).map_err(|e| e.to_string())
}

/// Relies on keyring::Entry::delete_credential: removes the credential
/// for the entry from the underlying store. The error's message is kept.
#[verifier::external_body]
fn entry_delete(entry: &keyring::Entry) -> (r: Result<(), String>)
{
    entry.delete_credential().map_err(|e| e.to_string())
}

/// The secure store's `get`: the stored secret, or `KeychainError` when
/// the entry handle cannot be built, or `NotFound` for any lookup
/// failure (absent entry, locked store, platform error) - those are
/// deliberately collapsed so store-specific diagnostics do not leak.
pub fn try_keychain() -> (r: Result<String, AuthError>)
    ensures
        r matches Err(e) ==> e is NotFound || e is KeychainError,
{
    let entry = match entry_new(KEYCHAIN_SERVICE, KEYCHAIN_ACCOUNT) {
        Ok(en) => en,
        Err(m) => {
            return Err(AuthError::KeychainError(m));
        },
    };
    match entry_get_password(&entry) {
        Ok(secret) => Ok(secret),
        Err(_) => Err(AuthError::NotFound),
    }
}

/// Validates the candidate, then writes it to the secure store and
/// nowhere else; in particular the fallback file is never written.
/// Rejected candidates never reach the store: `InvalidFormat` comes back
/// exactly on the malformed ones, and any other failure is the store's,
/// reported as `KeychainError`.
pub fn set_auth_token(token: String) -> (r: Result<(), AuthError>)
    ensures
        r is Ok ==> spec_valid_token(token@),
        (r matches Err(AuthError::InvalidFormat)) <==> !spec_valid_token(token@),
        r matches Err(e) ==> e is InvalidFormat || e is KeychainError,
{
    match validate_token(token.as_str()) {
        Ok(()) => {},
        Err(e) => {
            return Err(e);
        },
    }
    let entry = match entry_new(KEYCHAIN_SERVICE, KEYCHAIN_ACCOUNT) {
        Ok(en) => en,
        Err(m) => {
            return Err(AuthError::KeychainError(m));
        },
    };
    match entry_set_password(&entry, token.as_str()) {
        Ok(()) => Ok(()),
        Err(m) => Err(AuthError::KeychainError(m)),
    }
}

/// Removes the secure-store entry and touches nothing else; in
/// particular the fallback file is never touched. Every failure is the
/// store's, reported as `KeychainError`; deleting an entry the store
/// does not hold is an error or a silent success as the underlying
/// store decides.
pub fn delete_auth_token() -> (r: Result<(), AuthError>)
    ensures
        r matches Err(e) ==> e is KeychainError,
{
    let entry = match entry_new(KEYCHAIN_SERVICE, KEYCHAIN_ACCOUNT) {
        Ok(en) => en,
        Err(m) => {
            return Err(AuthError::KeychainError(m));
        },
    };
    match entry_delete(&entry) {
        Ok(()) => Ok(()),
        Err(m) => Err(AuthError::KeychainError(m)),
    }
}

} // verus!
