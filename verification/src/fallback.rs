//! The fallback tier: a token file at a fixed path under the user's home
//! directory. The file is created and permission-managed outside this
//! library; this library only decides what a read outcome means. Overly
//! broad permissions are advisory: they warn, they never fail a read.

use vstd::prelude::*;
use crate::auth::AuthError;

verus! {

/// What a trimmed token string is: the result of removing leading and
/// trailing whitespace. Named rather than spelled out; `trim_string`
/// below ties it to the real operation.
pub uninterp spec fn trimmed_of(s: Seq<char>) -> Seq<char>;

/// Relies on str::trim: removes leading and trailing whitespace; the
/// result depends on the characters alone.
#[verifier::external_body]
fn trim_string(s: &str) -> (r: String)
    ensures
        r@ == trimmed_of(s@),
{
    s.trim().to_string()
}

/// Relies on dirs::home_dir: the user's home directory, if the
/// environment names one (and its path is valid UTF-8).
#[verifier::external_body]
fn home_directory() -> (r: Option<String>)
{
    dirs::home_dir().and_then(|p| p.to_str().map(|s| s.to_owned()))
}

/// `p` is the fallback token path under the home directory `home`.
pub open spec fn is_fallback_path(p: Seq<char>, home: Seq<char>) -> bool {
    p == home + "/.greek2english/.auth_token"@
}

/// The fallback token path under the given home directory.
pub fn fallback_path_under(home: &str) -> (r: String)
    ensures
        is_fallback_path(r@, home@),
{
    String::from_str(home).concat("/.greek2english/.auth_token")
}

/// `p` is the fallback token path under some home directory.
pub open spec fn is_fallback_path_under_some_home(p: Seq<char>) -> bool {
    exists|home: Seq<char>| #[trigger] is_fallback_path(p, home)
}

/// The fallback token file path, resolved from the environment's home
/// directory; `None` when no home directory can be determined.
pub fn get_fallback_path() -> (r: Option<String>)
    ensures
        r matches Some(p) ==> is_fallback_path_under_some_home(p@),
{
    match home_directory() {
        None => None,
        Some(home) => {
            let p = fallback_path_under(home.as_str());
            proof {
                assert(is_fallback_path(p@, home@));
                assert(is_fallback_path_under_some_home(p@));
            }
            Some(p)
        },
    }
}

/// True when the mode has any permission bit outside owner read/write
/// set. Advisory only: a caller warns on it, but still reads the file.
pub fn permissions_too_open(mode: u32) -> (r: bool)
    ensures
        r == (mode & 0o077 != 0),
{
    mode & 0o077 != 0
}

/// What an attempt to read the fallback file observed.
pub enum FileReadOutcome {
    /// No home directory could be determined.
    NoHome,
    /// The file does not exist; absence is expected, not exceptional.
    Absent,
    /// An I/O failure while inspecting or reading the file, with its message.
    ReadFailure(String),
    /// The file's full text content.
    Content(String),
}

/// What a read of the fallback file yields: the trimmed content on
/// success, `NotFound` when there is no home directory or no file, and
/// `FileError` (with the underlying message) on an I/O failure.
pub fn fallback_read_result(outcome: FileReadOutcome) -> (r: Result<String, AuthError>)
    ensures
        outcome is NoHome ==> r matches Err(AuthError::NotFound),
        outcome is Absent ==> r matches Err(AuthError::NotFound),
        outcome matches FileReadOutcome::ReadFailure(m) ==> r matches Err(AuthError::FileError(e))
            && e@ == m@,
        outcome matches FileReadOutcome::Content(s) ==> r matches Ok(t) && t@ == trimmed_of(s@),
{
    match outcome {
        FileReadOutcome::NoHome => Err(AuthError::NotFound),
        FileReadOutcome::Absent => Err(AuthError::NotFound),
        FileReadOutcome::ReadFailure(m) => Err(AuthError::FileError(m)),
        FileReadOutcome::Content(s) => Ok(trim_string(s.as_str())),
    }
}

} // verus!
