//! The program's configuration: where to search for kegs, engines and
//! wrapper templates, and which editor and file explorer to run.
use vstd::prelude::*;

use crate::text::strings_view;

verus! {

/// Where new kegs are created.
pub fn default_keg_location() -> (r: &'static str)
    ensures
        r@ == "~/Applications/kegtui"@,
{
    "~/Applications/kegtui"
}

/// Directories searched for kegs when the configuration names none.
pub fn default_keg_search_paths() -> (r: Vec<String>)
    ensures
        strings_view(r@) == seq![
            "/Applications"@,
            "~/Applications/"@,
            "~/Applications/Kegworks/"@,
            "~/Applications/Sikarugir/"@,
            "~/Applications/kegtui"@,
        ],
{
    let mut r: Vec<String> = Vec::new();
    r.push("/Applications".to_owned());
    r.push("~/Applications/".to_owned());
    r.push("~/Applications/Kegworks/".to_owned());
    r.push("~/Applications/Sikarugir/".to_owned());
    r.push(default_keg_location().to_owned());
    assert(strings_view(r@) =~= seq![
        "/Applications"@,
        "~/Applications/"@,
        "~/Applications/Kegworks/"@,
        "~/Applications/Sikarugir/"@,
        "~/Applications/kegtui"@,
    ]);
    r
}

/// Directories searched for engines when the configuration names none.
pub fn default_engine_search_paths() -> (r: Vec<String>)
    ensures
        strings_view(r@) == seq![
            "~/Library/Application Support/Kegworks/Engines/"@,
            "~/Library/Application Support/Sikarugir/Engines/"@,
        ],
{
    let mut r: Vec<String> = Vec::new();
    r.push("~/Library/Application Support/Kegworks/Engines/".to_owned());
    r.push("~/Library/Application Support/Sikarugir/Engines/".to_owned());
    assert(strings_view(r@) =~= seq![
        "~/Library/Application Support/Kegworks/Engines/"@,
        "~/Library/Application Support/Sikarugir/Engines/"@,
    ]);
    r
}

/// Directories searched for wrapper templates when the configuration names
/// none.
pub fn default_wrapper_search_paths() -> (r: Vec<String>)
    ensures
        strings_view(r@) == seq![
            "~/Library/Application Support/Kegworks/Wrapper/"@,
            "~/Library/Application Support/Sikarugir/Wrapper/"@,
        ],
{
    let mut r: Vec<String> = Vec::new();
    r.push("~/Library/Application Support/Kegworks/Wrapper/".to_owned());
    r.push("~/Library/Application Support/Sikarugir/Wrapper/".to_owned());
    assert(strings_view(r@) =~= seq![
        "~/Library/Application Support/Kegworks/Wrapper/"@,
        "~/Library/Application Support/Sikarugir/Wrapper/"@,
    ]);
    r
}

/// Search directories may start with `~`, which stands for the home directory.
pub struct AppConfig {
    /// Directories with full keg bundles.
    pub keg_search_paths: Vec<String>,
    /// Directories with engines.
    pub engine_search_paths: Vec<String>,
    /// Directories with template wrappers.
    pub wrapper_search_paths: Vec<String>,
    pub editor: String,
    pub explorer: String,
}

} // verus!
