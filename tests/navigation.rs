use std::sync::RwLock;

use kegtui::app::{App, AsyncState, Effect, Focus, Key, LookupError, ViewInteractivity};
use kegtui::app_config::{
    default_engine_search_paths, default_keg_search_paths, default_wrapper_search_paths, AppConfig,
};
use kegtui::scan::build_snapshot;
use kegtui::view::{MenuItem, MenuItemAction, NavAction, NavContext, NavID, ViewID};
use kegtui::views::{ContentView, CreditsView, KegMainView, KegsView};

fn config() -> AppConfig {
    AppConfig {
        keg_search_paths: default_keg_search_paths(),
        engine_search_paths: default_engine_search_paths(),
        wrapper_search_paths: default_wrapper_search_paths(),
        editor: "vim".to_string(),
        explorer: "open".to_string(),
    }
}

fn snapshot_with_kegs(n: usize) -> AsyncState {
    let dirs: Vec<String> = (0..n).map(|i| format!("/Applications/Keg{i}.app")).collect();
    build_snapshot(&dirs, &vec![], &vec![])
}

/// Registers the "main" and "keg" menus as the program does; returns
/// the main menu's id.
fn program_context<'a>() -> NavContext<'a> {
    let mut context = NavContext::new();
    let kegs_view = context.view("kegs", ContentView::Kegs(KegsView));
    let credits_view = context.view("credits", ContentView::Credits(CreditsView));
    context.view("keg_main", ContentView::KegMain(KegMainView));
    context.nav(
        "main",
        vec![
            MenuItem::new("Kegs", MenuItemAction::LoadView(kegs_view)),
            MenuItem::new("Create Keg", MenuItemAction::External(0)),
            MenuItem::new("Credits", MenuItemAction::LoadView(credits_view)),
        ],
    );
    context.nav(
        "keg",
        vec![
            MenuItem::new("Back", MenuItemAction::NavAction(NavAction::Pop)),
            MenuItem::new("Launch", MenuItemAction::External(1)).default(),
            MenuItem::new("Winetricks", MenuItemAction::External(2)),
            MenuItem::new("Kill Processes", MenuItemAction::External(3)).default(),
        ],
    );
    context
}

fn top_index(context: &NavContext) -> Option<usize> {
    context.top_nav().map(|id| context.get_nav_index(id).unwrap())
}

#[test]
fn pop_on_empty_stack_leaves_no_top() {
    let mut context = program_context();
    assert!(context.top_nav().is_none());
    context.pop_nav();
    context.pop_nav();
    assert!(context.top_nav().is_none());
}

#[test]
fn pushes_then_as_many_pops_restore_the_top() {
    let mut context = program_context();
    context.push_nav(NavID::Index(0));
    assert_eq!(top_index(&context), Some(0));
    context.push_nav(NavID::Named("keg"));
    context.push_nav(NavID::Index(1));
    context.push_nav(NavID::Named("main"));
    assert_eq!(top_index(&context), Some(0));
    context.pop_nav();
    context.pop_nav();
    context.pop_nav();
    assert_eq!(top_index(&context), Some(0));
    context.pop_nav();
    assert!(context.top_nav().is_none());
}

#[test]
fn default_item_is_zero_without_flag() {
    let context = program_context();
    assert_eq!(context.get_nav_ref(NavID::Named("main")).default_item(), 0);
}

#[test]
fn default_item_is_first_flagged() {
    let context = program_context();
    assert_eq!(context.get_nav_ref(NavID::Named("keg")).default_item(), 1);
}

#[test]
fn default_item_is_the_single_flagged_item() {
    let mut context = NavContext::new();
    let id = context.nav(
        "one",
        vec![
            MenuItem::new("a", MenuItemAction::External(0)),
            MenuItem::new("b", MenuItemAction::External(1)),
            MenuItem::new("c", MenuItemAction::External(2)).default(),
        ],
    );
    let nav = context.get_nav_ref(id);
    assert_eq!(nav.default_item(), 2);
    assert_eq!(nav.menu().len(), 3);
    assert_eq!(nav.menu()[2].name(), "c");
}

#[test]
fn later_registration_takes_the_name_over() {
    let mut context = NavContext::new();
    let first = context.view("v", ContentView::Credits(CreditsView));
    let second = context.view("v", ContentView::Kegs(KegsView));
    assert!(matches!(first, ViewID::Index(0)));
    assert!(matches!(second, ViewID::Index(1)));
    assert_eq!(context.get_view_index(ViewID::Named("v")), Some(1));
    assert_eq!(context.get_view_index(ViewID::Index(0)), Some(0));
    assert_eq!(context.get_view_index(ViewID::Named("w")), None);
    assert_eq!(context.get_view_index(ViewID::Index(2)), None);
    assert!(matches!(context.get_view_ref(ViewID::Index(0)), ContentView::Credits(_)));
}

#[test]
fn enter_on_main_menu_loads_kegs_view() {
    let config = config();
    let state = AsyncState::new();
    let mut context = program_context();
    let mut app = App::new(&config);
    let main = context.get_nav_ref(NavID::Named("main")).default_item();
    assert_eq!(main, 0);
    app.execute_nav_action(&mut context, NavAction::Push(NavID::Named("main"))).unwrap();
    assert_eq!(app.nav_state().menu_state, 0);
    let effect = app.handle_key_event(&mut context, Key::Enter, &state).unwrap();
    assert!(matches!(effect, Effect::Nothing));
    let s = app.nav_state();
    assert_eq!(s.focus, Focus::Content);
    assert!(matches!(s.current_view, Some(ViewID::Index(0))));
    assert_eq!(app.interaction_state(), 0);
}

#[test]
fn three_downs_over_three_kegs_stop_at_two() {
    let config = config();
    let state = snapshot_with_kegs(3);
    let mut context = program_context();
    let mut app = App::new(&config);
    assert_eq!(
        ContentView::Kegs(KegsView).interactivity(&app, &state),
        ViewInteractivity::Clickables(3)
    );
    app.execute_nav_action(&mut context, NavAction::Push(NavID::Index(0))).unwrap();
    app.handle_key_event(&mut context, Key::Right, &state).unwrap();
    assert_eq!(app.interaction_state(), 0);
    for _ in 0..3 {
        app.handle_key_event(&mut context, Key::Down, &state).unwrap();
    }
    assert_eq!(app.interaction_state(), 2);
    for _ in 0..5 {
        app.handle_key_event(&mut context, Key::Char('k'), &state).unwrap();
    }
    assert_eq!(app.interaction_state(), 0);
}

#[test]
fn clickable_cursor_stays_within_targets() {
    let config = config();
    let state = snapshot_with_kegs(5);
    let mut context = program_context();
    let mut app = App::new(&config);
    app.execute_nav_action(&mut context, NavAction::Push(NavID::Index(0))).unwrap();
    app.handle_key_event(&mut context, Key::Enter, &state).unwrap();
    for step in 1..20usize {
        app.handle_key_event(&mut context, Key::Char('j'), &state).unwrap();
        assert_eq!(app.interaction_state(), step.min(4));
    }
    for step in 1..20usize {
        app.handle_key_event(&mut context, Key::Up, &state).unwrap();
        assert_eq!(app.interaction_state(), 4usize.saturating_sub(step));
    }
}

#[test]
fn scrollable_view_moves_by_three() {
    let config = config();
    let state = AsyncState::new();
    let mut context = program_context();
    let mut app = App::new(&config);
    app.execute_nav_action(&mut context, NavAction::Push(NavID::Index(0))).unwrap();
    app.handle_key_event(&mut context, Key::Down, &state).unwrap();
    app.handle_key_event(&mut context, Key::Down, &state).unwrap();
    assert_eq!(app.nav_state().menu_state, 2);
    app.handle_key_event(&mut context, Key::Down, &state).unwrap();
    assert_eq!(app.nav_state().menu_state, 2);
    app.handle_key_event(&mut context, Key::Enter, &state).unwrap();
    assert_eq!(app.nav_state().focus, Focus::Content);
    app.handle_key_event(&mut context, Key::Down, &state).unwrap();
    app.handle_key_event(&mut context, Key::Down, &state).unwrap();
    assert_eq!(app.interaction_state(), 6);
    app.handle_key_event(&mut context, Key::Up, &state).unwrap();
    assert_eq!(app.interaction_state(), 3);
    app.handle_key_event(&mut context, Key::Up, &state).unwrap();
    app.handle_key_event(&mut context, Key::Up, &state).unwrap();
    assert_eq!(app.interaction_state(), 0);
}

#[test]
fn passive_view_ignores_movement() {
    let config = config();
    let state = AsyncState::new();
    let mut context = program_context();
    let mut app = App::new(&config);
    app.execute_nav_action(&mut context, NavAction::Push(NavID::Index(0))).unwrap();
    app.handle_key_event(&mut context, Key::Enter, &state).unwrap();
    assert_eq!(
        ContentView::Kegs(KegsView).interactivity(&app, &state),
        ViewInteractivity::Passive
    );
    app.handle_key_event(&mut context, Key::Down, &state).unwrap();
    assert_eq!(app.interaction_state(), 0);
    let effect = app.handle_key_event(&mut context, Key::Enter, &state).unwrap();
    assert!(matches!(effect, Effect::Nothing));
}

#[test]
fn clicking_a_keg_asks_for_its_record_then_opens_keg_menu() {
    let config = config();
    let state = snapshot_with_kegs(3);
    let mut context = program_context();
    let mut app = App::new(&config);
    app.execute_nav_action(&mut context, NavAction::Push(NavID::Index(0))).unwrap();
    app.handle_key_event(&mut context, Key::Enter, &state).unwrap();
    app.handle_key_event(&mut context, Key::Down, &state).unwrap();
    let effect = app.handle_key_event(&mut context, Key::Enter, &state).unwrap();
    match effect {
        Effect::Select { keg, then: NavAction::Push(NavID::Named(name)) } => {
            assert_eq!(keg, 1);
            assert_eq!(name, "keg");
        }
        _ => panic!("expected a selection"),
    }
}

#[test]
fn push_resets_transient_state_to_new_default() {
    let config = config();
    let state = snapshot_with_kegs(2);
    let mut context = program_context();
    let mut app = App::new(&config);
    app.execute_nav_action(&mut context, NavAction::Push(NavID::Index(0))).unwrap();
    app.handle_key_event(&mut context, Key::Enter, &state).unwrap();
    app.handle_key_event(&mut context, Key::Down, &state).unwrap();
    app.execute_nav_action(&mut context, NavAction::Push(NavID::Named("keg"))).unwrap();
    let s = app.nav_state();
    assert_eq!(s.focus, Focus::Menu);
    assert!(s.current_view.is_none());
    assert_eq!(s.menu_state, 1);
    assert_eq!(s.clickables_state, 0);
    assert_eq!(top_index(&context), Some(1));
}

#[test]
fn back_item_pops_and_restores_previous_default() {
    let config = config();
    let state = snapshot_with_kegs(1);
    let mut context = program_context();
    let mut app = App::new(&config);
    app.execute_nav_action(&mut context, NavAction::Push(NavID::Index(0))).unwrap();
    app.handle_key_event(&mut context, Key::Down, &state).unwrap();
    app.execute_nav_action(&mut context, NavAction::Push(NavID::Named("keg"))).unwrap();
    assert_eq!(app.nav_state().menu_state, 1);
    app.handle_key_event(&mut context, Key::Up, &state).unwrap();
    assert_eq!(app.nav_state().menu_state, 0);
    let effect = app.handle_key_event(&mut context, Key::Enter, &state).unwrap();
    assert!(matches!(effect, Effect::Nothing));
    assert_eq!(top_index(&context), Some(0));
    let s = app.nav_state();
    assert_eq!(s.menu_state, 0);
    assert_eq!(s.focus, Focus::Menu);
    assert!(s.current_view.is_none());
}

#[test]
fn pop_action_from_content_focus_resets_to_menu() {
    let config = config();
    let state = snapshot_with_kegs(1);
    let mut context = program_context();
    let mut app = App::new(&config);
    app.execute_nav_action(&mut context, NavAction::Push(NavID::Index(0))).unwrap();
    app.execute_nav_action(&mut context, NavAction::Push(NavID::Index(1))).unwrap();
    app.execute_menu_action(&mut context, MenuItemAction::LoadView(ViewID::Named("keg_main"))).unwrap();
    assert_eq!(app.nav_state().focus, Focus::Content);
    app.execute_nav_action(&mut context, NavAction::Pop).unwrap();
    let s = app.nav_state();
    assert_eq!(s.focus, Focus::Menu);
    assert!(s.current_view.is_none());
    assert_eq!(s.menu_state, 0);
    assert_eq!(top_index(&context), Some(0));
    let _ = state;
}

#[test]
fn pop_to_empty_stack_selects_row_zero() {
    let config = config();
    let mut context = program_context();
    let mut app = App::new(&config);
    app.execute_nav_action(&mut context, NavAction::Push(NavID::Named("keg"))).unwrap();
    assert_eq!(app.nav_state().menu_state, 1);
    app.execute_nav_action(&mut context, NavAction::Pop).unwrap();
    assert!(context.top_nav().is_none());
    assert_eq!(app.nav_state().menu_state, 0);
}

#[test]
fn push_of_unknown_menu_fails_and_changes_nothing() {
    let config = config();
    let mut context = program_context();
    let mut app = App::new(&config);
    app.execute_nav_action(&mut context, NavAction::Push(NavID::Index(0))).unwrap();
    let result = app.execute_nav_action(&mut context, NavAction::Push(NavID::Named("missing")));
    assert_eq!(result, Err(LookupError::UnknownNav));
    assert_eq!(top_index(&context), Some(0));
    let result = app.execute_nav_action(&mut context, NavAction::Push(NavID::Index(9)));
    assert_eq!(result, Err(LookupError::UnknownNav));
}

#[test]
fn loading_unknown_view_fails() {
    let config = config();
    let mut context = program_context();
    let mut app = App::new(&config);
    app.execute_nav_action(&mut context, NavAction::Push(NavID::Index(0))).unwrap();
    let result = app.execute_menu_action(&mut context, MenuItemAction::LoadView(ViewID::Named("nope")));
    assert!(matches!(result, Err(LookupError::UnknownView)));
    assert_eq!(app.nav_state().focus, Focus::Menu);
}

#[test]
fn external_item_is_handed_to_caller() {
    let config = config();
    let state = AsyncState::new();
    let mut context = program_context();
    let mut app = App::new(&config);
    app.execute_nav_action(&mut context, NavAction::Push(NavID::Index(0))).unwrap();
    app.handle_key_event(&mut context, Key::Char('j'), &state).unwrap();
    let effect = app.handle_key_event(&mut context, Key::Char('l'), &state).unwrap();
    assert!(matches!(effect, Effect::External(0)));
    assert_eq!(app.nav_state().focus, Focus::Menu);
}

#[test]
fn modal_swallows_keys_until_closed() {
    let config = config();
    let state = AsyncState::new();
    let mut context = program_context();
    let mut app = App::new(&config);
    app.execute_nav_action(&mut context, NavAction::Push(NavID::Index(0))).unwrap();
    app.handle_key_event(&mut context, Key::Char('?'), &state).unwrap();
    assert!(app.nav_state().show_keybinds_modal);
    app.handle_key_event(&mut context, Key::Down, &state).unwrap();
    app.handle_key_event(&mut context, Key::Char('q'), &state).unwrap();
    assert_eq!(app.nav_state().menu_state, 0);
    assert!(!app.should_exit());
    app.handle_key_event(&mut context, Key::Esc, &state).unwrap();
    assert!(!app.nav_state().show_keybinds_modal);
    app.handle_key_event(&mut context, Key::Char('?'), &state).unwrap();
    app.handle_key_event(&mut context, Key::Char('?'), &state).unwrap();
    assert!(!app.nav_state().show_keybinds_modal);
}

#[test]
fn q_exits_and_z_suspends() {
    let config = config();
    let state = AsyncState::new();
    let mut context = program_context();
    let mut app = App::new(&config);
    app.execute_nav_action(&mut context, NavAction::Push(NavID::Index(0))).unwrap();
    let effect = app.handle_key_event(&mut context, Key::Char('z'), &state).unwrap();
    assert!(matches!(effect, Effect::Suspend));
    assert!(!app.should_exit());
    app.handle_key_event(&mut context, Key::Char('q'), &state).unwrap();
    assert!(app.should_exit());
}

#[test]
fn left_and_esc_return_focus_to_menu() {
    let config = config();
    let state = AsyncState::new();
    let mut context = program_context();
    let mut app = App::new(&config);
    app.execute_nav_action(&mut context, NavAction::Push(NavID::Index(0))).unwrap();
    app.handle_key_event(&mut context, Key::Enter, &state).unwrap();
    app.handle_key_event(&mut context, Key::Char('h'), &state).unwrap();
    assert_eq!(app.nav_state().focus, Focus::Menu);
    assert!(app.nav_state().current_view.is_some());
    app.handle_key_event(&mut context, Key::Right, &state).unwrap();
    app.handle_key_event(&mut context, Key::Esc, &state).unwrap();
    assert_eq!(app.nav_state().focus, Focus::Menu);
}

#[test]
fn refresher_stop_keeps_last_published_snapshot() {
    let shared = RwLock::new(AsyncState::new());
    let a = build_snapshot(
        &vec!["/Applications/A.app".to_string()],
        &vec!["/e/wine.tar.7z".to_string()],
        &vec![],
    );
    if let Ok(mut lock) = shared.try_write() {
        *lock = a;
    }
    let stop_requested = true;
    if !stop_requested {
        let b = build_snapshot(&vec![], &vec![], &vec![]);
        *shared.write().unwrap() = b;
    }
    for _ in 0..3 {
        let read = shared.try_read().unwrap();
        assert_eq!(read.kegs.len(), 1);
        assert_eq!(read.kegs[0].name, "A.app");
        assert_eq!(read.engines.len(), 1);
    }
}
