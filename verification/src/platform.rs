//! Calls whose results come from the machine: the user's directories, the
//! file system, and the decoding of bytes a child process wrote.

use vstd::prelude::*;
use vstd::utf8::{decode_utf8, valid_utf8};

use crate::autostart::AutostartEntry;

verus! {

/// What `String::from_utf8_lossy` makes of a byte sequence: a function of the
/// bytes alone (invalid sequences become U+FFFD).
pub uninterp spec fn utf8_lossy(bytes: Seq<u8>) -> Seq<char>;

/// Calls `dirs_next::home_dir`. The directory comes from `$HOME` or from the
/// password database, so nothing is promised of which one is found; on Unix
/// the crate never hands back an empty directory. The path is returned as
/// its encoded bytes, which on Unix are the operating system's own bytes.
#[verifier::external_body]
pub(crate) fn home_dir() -> (r: Option<Vec<u8>>)
    ensures
        r matches Some(h) ==> h@.len() > 0,
{
    match dirs_next::home_dir() {
        Some(p) => Some(p.into_os_string().into_encoded_bytes()),
        None => None,
    }
}

/// Calls `dirs_next::config_dir`. The directory comes from
/// `$XDG_CONFIG_HOME` (when absolute) or from the home directory followed by
/// `.config`; which one is found depends on the environment and is not
/// stated. A directory that is found is never empty. The path is returned as
/// its encoded bytes, which on Unix are the operating system's own bytes.
#[verifier::external_body]
pub(crate) fn config_dir() -> (r: Option<Vec<u8>>)
    ensures
        r matches Some(d) ==> d@.len() > 0,
{
    match dirs_next::config_dir() {
        Some(p) => Some(p.into_os_string().into_encoded_bytes()),
        None => None,
    }
}

/// Calls `std::path::Path::exists` on the path of an autostart entry.
/// Whether a file is there is a fact about the disk at the moment of the
/// call, so nothing is stated of the result. The bytes reach `Path` through
/// `String::from_utf8_lossy`, so a path that is not UTF-8 is looked up with
/// its invalid sequences replaced.
#[verifier::external_body]
pub(crate) fn path_exists(entry: &AutostartEntry) -> bool {
    std::path::Path::new(&*String::from_utf8_lossy(&entry.bytes)).exists()
}

/// Calls `String::from_utf8_lossy`. Its result is named by `utf8_lossy`; on
/// valid UTF-8 it is the decoded text itself, as the documentation of the
/// function says.
#[verifier::external_body]
pub(crate) fn lossy_text(bytes: &[u8]) -> (r: String)
    ensures
        r@ == utf8_lossy(bytes@),
        valid_utf8(bytes@) ==> r@ == decode_utf8(bytes@),
{
    String::from_utf8_lossy(bytes).into_owned()
}

} // verus!
