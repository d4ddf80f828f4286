//! Where the login autostart entry lives and whether it is installed.

use vstd::prelude::*;
use vstd::string::StringSliceAdditionalSpecFns;

use crate::config::opt_bytes;
use crate::platform::{config_dir, path_exists};
use crate::text::{join_path, path_join};

verus! {

/// Name of the desktop entry that starts the tray on login.
pub const DESKTOP_FILE_NAME: &'static str = "headsetcontrol-tray.desktop";

/// Contents of the desktop entry that starts the tray on login.
pub const DESKTOP_FILE_CONTENT: &'static str = "[Desktop Entry]
Name=HeadsetControl Tray
Comment=Control your headset from the system tray
Exec=headsetcontrol-tray
Icon=headset
Terminal=false
Type=Application
Categories=Settings;HardwareSettings;
StartupNotify=false
X-GNOME-Autostart-enabled=true
";

/// The autostart directory and the desktop entry inside it, as the
/// operating system's bytes.
pub struct AutostartLocation {
    pub dir: Vec<u8>,
    pub file: Vec<u8>,
}

/// `<config>/autostart`.
pub open spec fn autostart_dir_spec(config: Seq<u8>) -> Seq<u8> {
    path_join(config, "autostart".spec_bytes())
}

/// `<config>/autostart/headsetcontrol-tray.desktop`.
pub open spec fn autostart_file_spec(config: Seq<u8>) -> Seq<u8> {
    path_join(autostart_dir_spec(config), DESKTOP_FILE_NAME.spec_bytes())
}

/// The autostart directory and entry under a given configuration directory.
pub fn autostart_location_in(config: &[u8]) -> (r: AutostartLocation)
    ensures
        r.dir@ == autostart_dir_spec(config@),
        r.file@ == autostart_file_spec(config@),
{
    let dir = join_path(config, "autostart".as_bytes());
    let file = join_path(dir.as_slice(), DESKTOP_FILE_NAME.as_bytes());
    AutostartLocation { dir, file }
}

/// The autostart location of the current user, when the configuration
/// directory can be determined.
pub fn autostart_location() -> (r: Option<AutostartLocation>)
    ensures
        r matches Some(l) ==> exists|c: Seq<u8>|
            c.len() > 0 && l.dir@ == autostart_dir_spec(c) && l.file@ == autostart_file_spec(c),
{
    match config_dir() {
        Some(c) => {
            let l = autostart_location_in(c.as_slice());
            assert(l.dir@ == autostart_dir_spec(c@) && l.file@ == autostart_file_spec(c@));
            Some(l)
        },
        None => None,
    }
}

/// The desktop entry to look for under the configuration directory, if
/// that directory is known.
pub open spec fn autostart_entry_spec(config: Option<Seq<u8>>) -> Option<Seq<u8>> {
    match config {
        Some(c) => Some(autostart_file_spec(c)),
        None => None,
    }
}

/// The desktop entry whose existence decides whether autostart is on:
/// none without a configuration directory, otherwise the entry under it.
pub fn autostart_entry_path(config: Option<&[u8]>) -> (r: Option<Vec<u8>>)
    ensures
        match r {
            Some(p) => autostart_entry_spec(opt_bytes(config)) == Some(p@),
            None => autostart_entry_spec(opt_bytes(config)) is None,
        },
{
    match config {
        Some(c) => Some(autostart_location_in(c).file),
        None => None,
    }
}

/// The path of a desktop entry as it is looked up on disk. Such a value
/// can only hold the entry under some configuration directory, never
/// another path, such as the autostart directory itself.
pub struct AutostartEntry {
    pub(crate) bytes: Vec<u8>,
}

impl AutostartEntry {
    /// The entry's path.
    pub closed spec fn path(self) -> Seq<u8> {
        self.bytes@
    }

    #[verifier::type_invariant]
    closed spec fn is_entry_path(self) -> bool {
        exists|c: Seq<u8>| self.bytes@ == autostart_file_spec(c)
    }
}

/// The entry to look up under a configuration directory, if it is known.
fn autostart_entry(config: Option<&[u8]>) -> (r: Option<AutostartEntry>)
    ensures
        match r {
            Some(e) => autostart_entry_spec(opt_bytes(config)) == Some(e.path()),
            None => autostart_entry_spec(opt_bytes(config)) is None,
        },
{
    match config {
        Some(c) => {
            let file = autostart_location_in(c).file;
            assert(file@ == autostart_file_spec(c@));
            Some(AutostartEntry { bytes: file })
        },
        None => None,
    }
}

/// Whether the desktop entry is installed: false when the configuration
/// directory is unknown, otherwise whether the entry given by
/// `autostart_entry_path` exists on disk. Only an `AutostartEntry` can be
/// looked up, so the path checked is always a desktop entry under a
/// configuration directory.
pub fn is_autostart_enabled() -> bool {
    let config = config_dir();
    let entry = match &config {
        Some(c) => autostart_entry(Some(c.as_slice())),
        None => autostart_entry(None),
    };
    match entry {
        Some(e) => path_exists(&e),
        None => false,
    }
}

/// What turning autostart on or off does to the desktop entry.
#[derive(Clone, Copy, Debug, PartialEq, Eq, Structural)]
pub enum AutostartChange {
    /// Create the autostart directory if needed and write the entry.
    Install,
    /// Delete the entry.
    Remove,
    /// Leave the disk as it is.
    Keep,
}

/// Turning autostart on (re)writes the entry; turning it off removes the
/// entry when it is there and does nothing otherwise.
pub open spec fn autostart_change_spec(enabled: bool, entry_exists: bool) -> AutostartChange {
    if enabled {
        AutostartChange::Install
    } else if entry_exists {
        AutostartChange::Remove
    } else {
        AutostartChange::Keep
    }
}

/// The message when the autostart directory cannot be determined.
pub open spec fn no_autostart_dir_message() -> Seq<char> {
    "Could not determine autostart directory"@
}

/// The plan for making autostart `enabled`: an error when the location is
/// unknown, otherwise the location with the change to make, given whether
/// the entry exists now.
pub fn autostart_plan(location: Option<AutostartLocation>, enabled: bool, entry_exists: bool) -> (r: Result<
    (AutostartLocation, AutostartChange),
    String,
>)
    ensures
        match location {
            Some(l) => r matches Ok((l2, change)) && l2 == l && change == autostart_change_spec(
                enabled,
                entry_exists,
            ),
            None => r matches Err(e) && e@ == no_autostart_dir_message(),
        },
{
    match location {
        Some(l) => Ok((l, autostart_change(enabled, entry_exists))),
        None => Err(String::from_str("Could not determine autostart directory")),
    }
}

/// What to do to the desktop entry to make autostart `enabled`, given
/// whether the entry exists now.
pub fn autostart_change(enabled: bool, entry_exists: bool) -> (r: AutostartChange)
    ensures
        r == autostart_change_spec(enabled, entry_exists),
{
    if enabled {
        AutostartChange::Install
    } else if entry_exists {
        AutostartChange::Remove
    } else {
        AutostartChange::Keep
    }
}

} // verus!
