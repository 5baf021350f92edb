//! What a background scan keeps: which directory entries are kegs, engines
//! and wrapper templates, assembled into a fresh snapshot.
use vstd::prelude::*;

use crate::app::AsyncState;
use crate::keg::{Engine, Keg, Wrapper};
use crate::text::strings_view;
use crate::paths::{
    ends_with, expand_home, has_file_name, has_suffix, join_path, joined, names_entry, replace_tilde,
};

verus! {

/// The entry inside a directory whose presence marks it as a keg.
pub const KEG_MARKER: &'static str = "Contents/KegworksConfig.app";

/// File-name ending of an engine archive.
pub const ENGINE_SUFFIX: &'static str = ".tar.7z";

/// File-name ending of a wrapper template.
pub const WRAPPER_SUFFIX: &'static str = ".app";

/// The paths of `paths` that end with `suffix`, in order.
pub open spec fn with_suffix(paths: Seq<Seq<char>>, suffix: Seq<char>) -> Seq<Seq<char>>
    decreases paths.len(),
{
    if paths.len() == 0 {
        Seq::empty()
    } else {
        let rest = with_suffix(paths.drop_last(), suffix);
        if has_suffix(paths.last(), suffix) {
            rest.push(paths.last())
        } else {
            rest
        }
    }
}

/// The paths of `paths` that name an entry, in order.
pub open spec fn entries(paths: Seq<Seq<char>>) -> Seq<Seq<char>>
    decreases paths.len(),
{
    if paths.len() == 0 {
        Seq::empty()
    } else {
        let rest = entries(paths.drop_last());
        if has_file_name(paths.last()) {
            rest.push(paths.last())
        } else {
            rest
        }
    }
}

/// The search directories with `~` replaced by the home directory, in order.
pub fn expand_search_paths(paths: &Vec<String>, home: &str) -> (r: Vec<String>)
    ensures
        r@.len() == paths@.len(),
        forall|i: int| 0 <= i < r@.len() ==> (#[trigger] r@[i])@ == replace_tilde(paths@[i]@, home@),
{
    let mut r: Vec<String> = Vec::new();
    let mut i: usize = 0;
    while i < paths.len()
        invariant
            i <= paths@.len(),
            r@.len() == i,
            forall|k: int| 0 <= k < i ==> (#[trigger] r@[k])@ == replace_tilde(paths@[k]@, home@),
        decreases paths@.len() - i,
    {
        r.push(expand_home(paths[i].as_str(), home));
        i += 1;
    }
    r
}

/// The path whose existence marks the directory `entry` as a keg.
pub fn keg_marker_path(entry: &str) -> (r: String)
    ensures
        r@ == joined(entry@, KEG_MARKER@),
{
    join_path(entry, KEG_MARKER)
}

/// Whether `path` names an engine archive.
pub fn is_engine(path: &str) -> (r: bool)
    ensures
        r == has_suffix(path@, ENGINE_SUFFIX@),
{
    ends_with(path, ENGINE_SUFFIX)
}

/// Whether `path` names a wrapper template.
pub fn is_wrapper(path: &str) -> (r: bool)
    ensures
        r == has_suffix(path@, WRAPPER_SUFFIX@),
{
    ends_with(path, WRAPPER_SUFFIX)
}

/// The snapshot of one scan. `keg_dirs` are the directories found to hold the
/// keg marker; `engine_files` and `wrapper_files` are the entries of the
/// engine and wrapper search directories. Each list keeps the order of its
/// input; a keg path without a final component is skipped.
pub fn build_snapshot(keg_dirs: &Vec<String>, engine_files: &Vec<String>, wrapper_files: &Vec<String>) -> (r: AsyncState)
    ensures
        r.kegs@.len() == entries(strings_view(keg_dirs@)).len(),
        forall|i: int| 0 <= i < r.kegs@.len() ==> (#[trigger] r.kegs@[i]).located_at(entries(strings_view(keg_dirs@))[i]),
        r.engines@.map_values(|e: Engine| e.path@) == with_suffix(strings_view(engine_files@), ENGINE_SUFFIX@),
        r.wrappers@.map_values(|w: Wrapper| w.path@) == with_suffix(strings_view(wrapper_files@), WRAPPER_SUFFIX@),
{
    let ghost kv = strings_view(keg_dirs@);
    let mut kegs: Vec<Keg> = Vec::new();
    let mut i: usize = 0;
    while i < keg_dirs.len()
        invariant
            i <= keg_dirs@.len(),
            kv == strings_view(keg_dirs@),
            kegs@.len() == entries(kv.subrange(0, i as int)).len(),
            forall|k: int| 0 <= k < kegs@.len() ==> (#[trigger] kegs@[k]).located_at(entries(kv.subrange(0, i as int))[k]),
        decreases keg_dirs@.len() - i,
    {
        assert(kv.subrange(0, i + 1).drop_last() =~= kv.subrange(0, i as int));
        let path = keg_dirs[i].as_str();
        if names_entry(path) {
            kegs.push(Keg::from_path(path));
        }
        i += 1;
    }
    assert(kv.subrange(0, keg_dirs@.len() as int) =~= kv);

    let ghost ev = strings_view(engine_files@);
    let mut engines: Vec<Engine> = Vec::new();
    let mut i: usize = 0;
    while i < engine_files.len()
        invariant
            i <= engine_files@.len(),
            ev == strings_view(engine_files@),
            engines@.map_values(|e: Engine| e.path@) == with_suffix(ev.subrange(0, i as int), ENGINE_SUFFIX@),
        decreases engine_files@.len() - i,
    {
        assert(ev.subrange(0, i + 1).drop_last() =~= ev.subrange(0, i as int));
        let path = engine_files[i].as_str();
        if is_engine(path) {
            let ghost before = engines@;
            engines.push(Engine { path: path.to_owned() });
            assert(engines@.map_values(|e: Engine| e.path@) =~= before.map_values(|e: Engine| e.path@).push(path@));
        }
        i += 1;
    }
    assert(ev.subrange(0, engine_files@.len() as int) =~= ev);

    let ghost wv = strings_view(wrapper_files@);
    let mut wrappers: Vec<Wrapper> = Vec::new();
    let mut i: usize = 0;
    while i < wrapper_files.len()
        invariant
            i <= wrapper_files@.len(),
            wv == strings_view(wrapper_files@),
            wrappers@.map_values(|w: Wrapper| w.path@) == with_suffix(wv.subrange(0, i as int), WRAPPER_SUFFIX@),
        decreases wrapper_files@.len() - i,
    {
        assert(wv.subrange(0, i + 1).drop_last() =~= wv.subrange(0, i as int));
        let path = wrapper_files[i].as_str();
        if is_wrapper(path) {
            let ghost before = wrappers@;
            wrappers.push(Wrapper { path: path.to_owned() });
            assert(wrappers@.map_values(|w: Wrapper| w.path@) =~= before.map_values(|w: Wrapper| w.path@).push(path@));
        }
        i += 1;
    }
    assert(wv.subrange(0, wrapper_files@.len() as int) =~= wv);
    AsyncState { kegs, engines, wrappers }
}

} // verus!
