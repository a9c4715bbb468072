//! Token-format validation and the credential error taxonomy.

use vstd::prelude::*;

verus! {

/// A token is well formed when it starts with the prefix `rl_` and is at
/// least 24 characters long in total.
pub open spec fn spec_valid_token(s: Seq<char>) -> bool {
    &&& s.len() >= 24
    &&& s[0] == 'r'
    &&& s[1] == 'l'
    &&& s[2] == '_'
}

/// A resolved token together with its provenance: which tier produced
/// it, `"keychain"` or `"file"`. Built fresh on every successful
/// resolution and never cached.
#[derive(Debug, PartialEq, Eq)]
pub struct AuthToken {
    pub token: String,
    pub source: String,
}

/// Every way a credential operation can fail.
#[derive(Debug, PartialEq, Eq)]
pub enum AuthError {
    /// No candidate token could be obtained from either tier.
    NotFound,
    /// A candidate token was obtained but fails prefix/length validation.
    InvalidFormat,
    /// The underlying secure store reported a failure; its message is kept.
    KeychainError(String),
    /// An I/O failure (not absence) while reading the fallback file.
    FileError(String),
}

/// Accepts a candidate token iff it starts with `rl_` and has at least
/// 24 characters in total. Purely syntactic: no character-set or
/// strength check.
pub fn validate_token(token: &str) -> (r: Result<(), AuthError>)
    ensures
        r is Ok <==> spec_valid_token(token@),
        r is Err ==> r matches Err(AuthError::InvalidFormat),
{
    let n = token.unicode_len();
    if n >= 24 && token.get_char(0) == 'r' && token.get_char(1) == 'l' && token.get_char(2) == '_'
    {
        Ok(())
    } else {
        Err(AuthError::InvalidFormat)
    }
}

} // verus!
