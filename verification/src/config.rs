//! The user's settings and where they are stored.

use vstd::prelude::*;
use vstd::string::StringSliceAdditionalSpecFns;

use crate::platform::home_dir;
use crate::text::{join_path, path_join};

verus! {

/// The persisted settings of the tray.
#[derive(Clone, Copy, Debug, PartialEq, Eq, Structural)]
pub struct Config {
    /// Battery level at or below which a low-battery notice is shown while
    /// discharging (10, 20, ..., 90), or `None` to disable it.
    pub discharge_level: Option<u8>,
    /// Battery level at or above which a charged notice is shown while
    /// charging (10, 20, ..., 100), or `None` to disable it.
    pub charge_level: Option<u8>,
    pub sidetone_level: u8,
    pub inactive_time: u8,
    pub reapply_on_startup: bool,
    pub notifications_enabled: bool,
}

/// The settings a fresh installation starts with.
pub open spec fn default_config() -> Config {
    Config {
        discharge_level: Some(20),
        charge_level: Some(80),
        sidetone_level: 64,
        inactive_time: 0,
        reapply_on_startup: true,
        notifications_enabled: true,
    }
}

impl Default for Config {
    fn default() -> (c: Self)
        ensures
            c == default_config(),
    {
        Config {
            discharge_level: Some(20),
            charge_level: Some(80),
            sidetone_level: 64,
            inactive_time: 0,
            reapply_on_startup: true,
            notifications_enabled: true,
        }
    }
}

/// The view of an optional text.
pub open spec fn opt_text(o: Option<&str>) -> Option<Seq<char>> {
    match o {
        Some(s) => Some(s@),
        None => None,
    }
}

/// The view of an optional byte string.
pub open spec fn opt_bytes(o: Option<&[u8]>) -> Option<Seq<u8>> {
    match o {
        Some(s) => Some(s@),
        None => None,
    }
}

/// Where the settings file lives, given the home directory if one is known:
/// `<home>/.config/headsetcontrol-widget/config.json`, with `/tmp` standing
/// in for an unknown home. Paths are the operating system's bytes.
pub open spec fn config_path_from_home(home: Option<Seq<u8>>) -> Seq<u8> {
    let base = match home {
        Some(h) => h,
        None => "/tmp".spec_bytes(),
    };
    path_join(
        path_join(path_join(base, ".config".spec_bytes()), "headsetcontrol-widget".spec_bytes()),
        "config.json".spec_bytes(),
    )
}

/// The settings file for a given home directory (or `/tmp` when there is none).
pub fn config_path_for_home(home: Option<&[u8]>) -> (r: Vec<u8>)
    ensures
        r@ == config_path_from_home(opt_bytes(home)),
{
    let base = match home {
        Some(h) => h,
        None => "/tmp".as_bytes(),
    };
    let p1 = join_path(base, ".config".as_bytes());
    let p2 = join_path(p1.as_slice(), "headsetcontrol-widget".as_bytes());
    join_path(p2.as_slice(), "config.json".as_bytes())
}

/// The settings file of the current user.
pub fn get_config_path() -> (r: Vec<u8>)
    ensures
        exists|h: Option<Seq<u8>>| r@ == config_path_from_home(h),
{
    let home = home_dir();
    let r = match &home {
        Some(h) => config_path_for_home(Some(h.as_slice())),
        None => config_path_for_home(None),
    };
    proof {
        let w = match home {
            Some(h) => Some(h@),
            None => None,
        };
        assert(r@ == config_path_from_home(w));
    }
    r
}

} // verus!
