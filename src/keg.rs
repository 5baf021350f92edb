//! Kegs found on disk, and the detail record of the keg being operated on.
use vstd::prelude::*;

use crate::keg_plist::KegPlist;
use crate::paths::{file_name, has_file_name, join_path, joined, parent, split_file_name};

verus! {

/// Where a keg keeps its property list, relative to the bundle.
pub const INFO_PLIST: &'static str = "Contents/Info.plist";

/// The keg's Windows C: drive, relative to the bundle.
pub const DRIVE_C: &'static str = "Contents/drive_c";

/// The keg's launcher executable, relative to the bundle.
pub const LAUNCHER: &'static str = "Contents/MacOS/wineskinLauncher";

/// The keg's log directory, relative to the bundle.
pub const LOGS: &'static str = "Contents/Logs";

/// A keg bundle found by a scan: its name and the paths the program uses.
#[derive(Clone, Debug)]
pub struct Keg {
    pub name: String,
    pub enclosing_location: String,
    pub config_file: String,
    pub wineskin_launcher: String,
    pub c_drive: String,
    pub log_directory: String,
}

/// The keg chosen from the list, with its property list read in.
pub struct CurrentKeg {
    pub name: String,
    pub wineskin_launcher: String,
    pub c_drive: String,
    pub plist: KegPlist,
    pub config_file: String,
    pub log_directory: String,
}

/// A compressed Wine engine archive found by a scan.
#[derive(Clone, Debug)]
pub struct Engine {
    pub path: String,
}

/// A template wrapper bundle found by a scan.
#[derive(Clone, Debug)]
pub struct Wrapper {
    pub path: String,
}

impl Keg {
    /// `self` describes the bundle at `path`.
    pub open spec fn located_at(&self, path: Seq<char>) -> bool {
        &&& self.name@ == file_name(path)
        &&& self.enclosing_location@ == parent(path)
        &&& self.config_file@ == joined(path, INFO_PLIST@)
        &&& self.c_drive@ == joined(path, DRIVE_C@)
        &&& self.wineskin_launcher@ == joined(path, LAUNCHER@)
        &&& self.log_directory@ == joined(path, LOGS@)
    }

    /// The keg whose bundle is at `path`: named by the final component, with
    /// its paths inside the bundle.
    pub fn from_path(path: &str) -> (r: Keg)
        requires
            has_file_name(path@),
        ensures
            r.located_at(path@),
    {
        let (name, enclosing_location) = split_file_name(path);
        Keg {
            name,
            enclosing_location,
            config_file: join_path(path, INFO_PLIST),
            c_drive: join_path(path, DRIVE_C),
            wineskin_launcher: join_path(path, LAUNCHER),
            log_directory: join_path(path, LOGS),
        }
    }
}

impl CurrentKeg {
    /// The detail record of `keg`, given its property list as read from
    /// `keg.config_file`.
    pub fn from_keg(keg: &Keg, plist: KegPlist) -> (r: CurrentKeg)
        ensures
            r.name == keg.name,
            r.wineskin_launcher == keg.wineskin_launcher,
            r.c_drive == keg.c_drive,
            r.plist == plist,
            r.config_file == keg.config_file,
            r.log_directory == keg.log_directory,
    {
        CurrentKeg {
            name: keg.name.clone(),
            wineskin_launcher: keg.wineskin_launcher.clone(),
            c_drive: keg.c_drive.clone(),
            plist,
            config_file: keg.config_file.clone(),
            log_directory: keg.log_directory.clone(),
        }
    }
}

} // verus!
