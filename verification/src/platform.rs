//! What the library takes from the process it runs in and from other
//! crates. Nothing in this file is proved: each contract is stated from
//! the documentation and the source of the function that it calls.

use vstd::prelude::*;

verus! {

/// The real user id of the calling process.
///
/// Calls `nix::unistd::getuid`, which cannot fail. The id depends on the
/// process, so nothing is claimed of it.
#[verifier::external_body]
pub(crate) fn current_uid() -> u32 {
    nix::unistd::getuid().as_raw()
}

/// The real group id of the calling process.
///
/// Calls `nix::unistd::getgid`, which cannot fail. The id depends on the
/// process, so nothing is claimed of it.
#[verifier::external_body]
pub(crate) fn current_gid() -> u32 {
    nix::unistd::getgid().as_raw()
}

/// How `nix` prints the error with the given number: the error's name, a
/// colon and its description, as in `EPERM: Operation not permitted`.
pub uninterp spec fn errno_text(errno: i32) -> Seq<char>;

/// The text for an error number.
///
/// Calls `nix::errno::Errno::from_raw` and formats the result with its
/// `Display`. Both depend on the number alone.
#[verifier::external_body]
pub(crate) fn describe_errno(errno: i32) -> (out: String)
    ensures
        out@ == errno_text(errno),
{
    format!("{}", nix::errno::Errno::from_raw(errno))
}

/// The error number that Linux gives to "file exists".
pub const EEXIST: i32 = 17;

/// Whether an error number means that the thing to create is there
/// already.
///
/// Compares `nix::errno::Errno::from_raw(errno)` with `Errno::EEXIST`. On
/// Linux `from_raw` maps 17, and no other number, to that variant.
#[verifier::external_body]
pub(crate) fn is_already_exists(errno: i32) -> (b: bool)
    ensures
        b == (errno == EEXIST),
{
    nix::errno::Errno::from_raw(errno) == nix::errno::Errno::EEXIST
}

/// `s` as a JSON string: in double quotes, with the characters escaped
/// that JSON does not take as they are.
pub uninterp spec fn json_quoted(s: Seq<char>) -> Seq<char>;

/// The JSON string for `s`.
///
/// Calls `serde_json::to_string` on the string slice. For a string slice
/// the serializer only appends to a byte vector in memory, which cannot
/// fail; the result depends on the characters alone.
#[verifier::external_body]
pub(crate) fn json_string(s: &str) -> (out: String)
    ensures
        out@ == json_quoted(s@),
{
    serde_json::to_string(s).unwrap_or_default()
}

} // verus!
