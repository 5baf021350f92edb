use kegtui::app::AsyncState;
use kegtui::forms::{
    classify_answer, creator_template, parse_creator_choice, winetricks_template, Answer, CreatorChoice,
};
use kegtui::help::{make_keybinds_help_table, modal_area};
use kegtui::keg::{Engine, Keg, Wrapper};
use kegtui::paths::{ends_with, expand_home, join_path, names_entry, split_file_name};
use kegtui::scan::{build_snapshot, expand_search_paths, is_engine, is_wrapper, keg_marker_path};
use kegtui::text::{parse_winetricks, quote_key, split_lines, trim};

fn pair(a: &str, b: &str) -> (String, String) {
    (a.to_string(), b.to_string())
}

#[test]
fn winetricks_listing_is_parsed_line_by_line() {
    let output = "vcrun2019   Visual C++ 2019 libraries\n\nno-space-line\n  d3dx9 DirectX 9  \nie8-x  Internet Explorer 8\n";
    let parsed = parse_winetricks(output);
    assert_eq!(
        parsed,
        vec![
            pair("vcrun2019", "Visual C++ 2019 libraries"),
            pair("", "d3dx9 DirectX 9"),
            pair("\"ie8-x\"", "Internet Explorer 8"),
        ]
    );
}

#[test]
fn winetricks_listing_handles_crlf_and_empty() {
    assert!(parse_winetricks("").is_empty());
    assert_eq!(parse_winetricks("a_1 b\r\n"), vec![pair("a_1", "b")]);
}

#[test]
fn lines_follow_newlines() {
    assert_eq!(split_lines("a\n\nb"), vec!["a", "", "b"]);
    assert_eq!(split_lines("a\n"), vec!["a"]);
    assert_eq!(split_lines("\n"), vec![""]);
    assert!(split_lines("").is_empty());
}

#[test]
fn trim_removes_unicode_white_space() {
    assert_eq!(trim("\t x y \u{3000}\n"), "x y");
    assert_eq!(trim("   "), "");
}

#[test]
fn keys_are_quoted_only_when_needed() {
    assert_eq!(quote_key("dxvk_2"), "dxvk_2");
    assert_eq!(quote_key("win10.x"), "\"win10.x\"");
}

#[test]
fn winetricks_form_lists_every_verb() {
    let form = winetricks_template(
        &vec![pair("steam", "Steam client")],
        &vec![pair("d3dx9", "DirectX 9")],
        &vec![],
        &vec![pair("win10", "Windows 10")],
    );
    assert_eq!(
        form,
        "# Uncomment each winetrick to install\n# Save and quit your editor to select\n\n\
         # app.steam = \"Steam client\"\n\
         # dll.d3dx9 = \"DirectX 9\"\n\
         # setting.win10 = \"Windows 10\"\n"
    );
}

#[test]
fn creator_form_lists_engines_then_wrappers() {
    let state = AsyncState {
        kegs: vec![],
        engines: vec![Engine { path: "/e/WS11.tar.7z".to_string() }],
        wrappers: vec![Wrapper { path: "/w/Template.app".to_string() }],
    };
    let form = creator_template(&state);
    assert!(form.starts_with("# Uncomment the engine and wrapper to use\n"));
    assert!(form.ends_with("reopen kegtui\n\n# /e/WS11.tar.7z\n\n# /w/Template.app\n"));
}

#[test]
fn creator_choice_reads_uncommented_lines() {
    match parse_creator_choice("# header\n  /e/WS11.tar.7z  \n\n# x\n/w/T.app\n") {
        CreatorChoice::Pick { engine, wrapper } => {
            assert_eq!(engine, "/e/WS11.tar.7z");
            assert_eq!(wrapper, "/w/T.app");
        }
        _ => panic!("expected a pick"),
    }
    assert!(matches!(parse_creator_choice("# a\n   \n# b\n"), CreatorChoice::Quit));
    assert!(matches!(parse_creator_choice("one\n"), CreatorChoice::Retry));
    assert!(matches!(parse_creator_choice("a\nb\nc\n"), CreatorChoice::Retry));
}

#[test]
fn answers_are_classified() {
    assert_eq!(classify_answer("y\n"), Answer::Yes);
    assert_eq!(classify_answer(" Y "), Answer::Yes);
    assert_eq!(classify_answer("N\n"), Answer::No);
    assert_eq!(classify_answer("q"), Answer::Quit);
    assert_eq!(classify_answer("yes"), Answer::Unclear);
    assert_eq!(classify_answer(""), Answer::Unclear);
}

#[test]
fn home_is_substituted_for_every_tilde() {
    assert_eq!(expand_home("~/Applications/", "/Users/me"), "/Users/me/Applications/");
    assert_eq!(expand_home("/Applications", "/Users/me"), "/Applications");
    assert_eq!(expand_home("~a~", "H"), "HaH");
    let expanded = expand_search_paths(&vec!["~/x".to_string(), "/y".to_string()], "/h");
    assert_eq!(expanded, vec!["/h/x", "/y"]);
}

#[test]
fn paths_join_with_one_separator() {
    assert_eq!(join_path("/a", "Contents/Info.plist"), "/a/Contents/Info.plist");
    assert_eq!(join_path("/a/", "b"), "/a/b");
    assert_eq!(join_path("", "b"), "b");
    assert_eq!(keg_marker_path("/A/K.app"), "/A/K.app/Contents/KegworksConfig.app");
}

#[test]
fn final_component_and_parent() {
    assert_eq!(split_file_name("/Applications/Game.app"), ("Game.app".to_string(), "/Applications".to_string()));
    assert_eq!(split_file_name("/Game.app"), ("Game.app".to_string(), "/".to_string()));
    assert_eq!(split_file_name("Game.app"), ("Game.app".to_string(), "".to_string()));
    assert!(names_entry("/a/b"));
    assert!(!names_entry("/a/"));
    assert!(!names_entry("/a/.."));
    assert!(!names_entry("."));
    assert!(names_entry("/a/.b"));
}

#[test]
fn keg_paths_come_from_its_bundle() {
    let keg = Keg::from_path("/Users/me/Applications/Game.app");
    assert_eq!(keg.name, "Game.app");
    assert_eq!(keg.enclosing_location, "/Users/me/Applications");
    assert_eq!(keg.config_file, "/Users/me/Applications/Game.app/Contents/Info.plist");
    assert_eq!(keg.c_drive, "/Users/me/Applications/Game.app/Contents/drive_c");
    assert_eq!(keg.wineskin_launcher, "/Users/me/Applications/Game.app/Contents/MacOS/wineskinLauncher");
    assert_eq!(keg.log_directory, "/Users/me/Applications/Game.app/Contents/Logs");
}

#[test]
fn suffixes_pick_engines_and_wrappers() {
    assert!(is_engine("/e/WS11WineCX64Bit.tar.7z"));
    assert!(!is_engine("/e/WS11.tar"));
    assert!(is_wrapper("/w/Wineskin-2.9.app"));
    assert!(!is_wrapper("/w/app"));
    assert!(ends_with("abc", ""));
    assert!(!ends_with("c", "abc"));
}

#[test]
fn snapshot_keeps_matching_entries_in_order() {
    let snapshot = build_snapshot(
        &vec!["/A/One.app".to_string(), "/A/".to_string(), "/A/Two.app".to_string()],
        &vec!["/e/a.tar.7z".to_string(), "/e/readme".to_string(), "/e/b.tar.7z".to_string()],
        &vec!["/w/x.app".to_string(), "/w/y.zip".to_string()],
    );
    let names: Vec<&str> = snapshot.kegs.iter().map(|k| k.name.as_str()).collect();
    assert_eq!(names, vec!["One.app", "Two.app"]);
    let engines: Vec<&str> = snapshot.engines.iter().map(|e| e.path.as_str()).collect();
    assert_eq!(engines, vec!["/e/a.tar.7z", "/e/b.tar.7z"]);
    let wrappers: Vec<&str> = snapshot.wrappers.iter().map(|w| w.path.as_str()).collect();
    assert_eq!(wrappers, vec!["/w/x.app"]);
}

#[test]
fn help_table_sizes_its_columns() {
    let help = make_keybinds_help_table();
    assert_eq!(help.rows.len(), 9);
    assert_eq!(help.rows[2].keys, vec!["<Left>", "<H>"]);
    assert_eq!(help.lhs_width, 12);
    assert_eq!(help.rhs_width, 51);
    assert_eq!(help.width, 64);
    assert_eq!(help.height, 9);
}

#[test]
fn modal_is_centred_when_it_fits() {
    assert_eq!(modal_area(0, 0, 100, 30, 68, 13), Some((16, 8, 68, 13)));
    assert_eq!(modal_area(2, 1, 71, 16, 68, 13), Some((3, 2, 68, 13)));
    assert_eq!(modal_area(0, 0, 70, 30, 68, 13), None);
    assert_eq!(modal_area(0, 0, 2, 2, 0, 0), None);
}
