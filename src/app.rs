//! The controller: transient UI state (focus, selected menu row, interaction
//! cursor, loaded view, help modal) and how key presses and menu actions
//! change it and the navigation stack.
use vstd::prelude::*;

use crate::app_config::AppConfig;
use crate::keg::{CurrentKeg, Engine, Keg, Wrapper};
use crate::view::{MenuItemAction, NavAction, NavContext, NavID, ViewID, popped};
use crate::views::ContentView;

verus! {

/// Which pane receives vertical movement and activation.
#[derive(Clone, Copy, PartialEq, Eq, Structural, Debug)]
pub enum Focus {
    Menu,
    Content,
}

/// How a view reacts to vertical movement when its content is focused.
#[derive(Clone, Copy, PartialEq, Eq, Structural, Debug)]
pub enum ViewInteractivity {
    /// Movement does nothing.
    Passive,
    /// Movement scrolls by three lines.
    Scrollable,
    /// Movement walks a cursor over this many targets.
    Clickables(usize),
}

/// A key press, as the controller distinguishes them.
#[derive(Clone, Copy, PartialEq, Eq, Structural, Debug)]
pub enum Key {
    Char(char),
    Up,
    Down,
    Left,
    Right,
    Enter,
    Esc,
    Other,
}

/// Work that the controller hands to the program that runs it.
#[derive(Clone, Copy)]
pub enum Effect<'a> {
    Nothing,
    /// Release the terminal, run the external collaborator at this position
    /// to completion, take the terminal back and redraw in full.
    External(usize),
    /// Release the terminal until the user asks to come back.
    Suspend,
    /// Read the detail record of the keg at this position of the snapshot; on
    /// success hand it to `App::complete_selection` with this action.
    Select { keg: usize, then: NavAction<'a> },
}

/// An identifier that names no registration.
#[derive(Clone, Copy, PartialEq, Eq, Structural, Debug)]
pub enum LookupError {
    UnknownNav,
    UnknownView,
}

/// The controller's transient state.
#[derive(Clone, Copy)]
pub struct NavState<'a> {
    pub exit: bool,
    pub focus: Focus,
    /// The highlighted row of the current menu.
    pub menu_state: usize,
    pub current_view: Option<ViewID<'a>>,
    /// The cursor of the loaded view: a target index or a scroll offset.
    pub clickables_state: usize,
    pub show_keybinds_modal: bool,
}

/// The latest result of the background scan.
#[derive(Clone, Debug)]
pub struct AsyncState {
    pub kegs: Vec<Keg>,
    pub engines: Vec<Engine>,
    pub wrappers: Vec<Wrapper>,
}

impl AsyncState {
    /// The snapshot before the first scan: nothing found.
    pub fn new() -> (r: AsyncState)
        ensures
            r.kegs@.len() == 0,
            r.engines@.len() == 0,
            r.wrappers@.len() == 0,
    {
        AsyncState { kegs: Vec::new(), engines: Vec::new(), wrappers: Vec::new() }
    }
}

pub open spec fn saturating_sub(a: usize, b: usize) -> usize {
    if a >= b {
        (a - b) as usize
    } else {
        0
    }
}

pub open spec fn saturating_add(a: usize, b: usize) -> usize {
    if a + b <= usize::MAX {
        (a + b) as usize
    } else {
        usize::MAX
    }
}

/// The cursor after one upward move.
pub open spec fn cursor_up(interactivity: ViewInteractivity, cursor: usize) -> usize {
    match interactivity {
        ViewInteractivity::Passive => cursor,
        ViewInteractivity::Scrollable => saturating_sub(cursor, 3),
        ViewInteractivity::Clickables(_) => saturating_sub(cursor, 1),
    }
}

/// The cursor after one downward move: clickable cursors stop at the last
/// target.
pub open spec fn cursor_down(interactivity: ViewInteractivity, cursor: usize) -> usize {
    match interactivity {
        ViewInteractivity::Passive => cursor,
        ViewInteractivity::Scrollable => saturating_add(cursor, 3),
        ViewInteractivity::Clickables(count) => if cursor + 1 < count {
            (cursor + 1) as usize
        } else {
            cursor
        },
    }
}

/// The cursor after `n` downward moves.
pub open spec fn cursor_down_n(interactivity: ViewInteractivity, cursor: usize, n: nat) -> usize
    decreases n,
{
    if n == 0 {
        cursor
    } else {
        cursor_down(interactivity, cursor_down_n(interactivity, cursor, (n - 1) as nat))
    }
}

/// The cursor after `n` upward moves.
pub open spec fn cursor_up_n(interactivity: ViewInteractivity, cursor: usize, n: nat) -> usize
    decreases n,
{
    if n == 0 {
        cursor
    } else {
        cursor_up(interactivity, cursor_up_n(interactivity, cursor, (n - 1) as nat))
    }
}

/// Over `count` targets, `n` downward moves from target 0 reach target
/// `min(n, count - 1)` and never pass the last target; `n` upward moves from
/// any cursor reach `max(cursor - n, 0)` and never pass target 0.
pub proof fn lemma_cursor_clamping(count: usize, cursor: usize, n: nat)
    requires
        count >= 1,
    ensures
        cursor_down_n(ViewInteractivity::Clickables(count), 0, n) == if n < count {
            n
        } else {
            (count - 1) as nat
        },
        cursor_down_n(ViewInteractivity::Clickables(count), 0, n) <= count - 1,
        cursor_up_n(ViewInteractivity::Clickables(count), cursor, n) == if n <= cursor {
            cursor - n
        } else {
            0
        },
    decreases n,
{
    if n > 0 {
        lemma_cursor_clamping(count, cursor, (n - 1) as nat);
    }
}

pub open spec fn is_up(key: Key) -> bool {
    key == Key::Up || key == Key::Char('k')
}

pub open spec fn is_down(key: Key) -> bool {
    key == Key::Down || key == Key::Char('j')
}

pub open spec fn is_left(key: Key) -> bool {
    key == Key::Left || key == Key::Char('h')
}

pub open spec fn is_right(key: Key) -> bool {
    key == Key::Right || key == Key::Char('l')
}

/// The row selected when a menu becomes current: its default row, or 0 when
/// the stack is empty.
pub open spec fn default_row<'a>(ctx: NavContext<'a>) -> usize {
    match ctx.spec_top() {
        Some(top) => ctx.nav_of(top).spec_default_item() as usize,
        None => 0,
    }
}

/// The stack after `action`, or `None` where it pushes a menu that does not
/// resolve.
pub open spec fn stack_after<'a>(ctx: NavContext<'a>, action: NavAction<'a>) -> Option<Seq<NavID<'a>>> {
    match action {
        NavAction::Pop => Some(popped(ctx.spec_stack())),
        NavAction::Push(id) => if ctx.nav_index(id) is Some {
            Some(ctx.spec_stack().push(id))
        } else {
            None
        },
    }
}

/// What a navigation action does: it changes the stack and resets focus,
/// loaded view and cursor, and selects the new menu's default row; or, where
/// it names no menu, it fails and changes nothing.
pub open spec fn nav_outcome<'a>(
    s0: NavState<'a>,
    ctx0: NavContext<'a>,
    action: NavAction<'a>,
    s1: NavState<'a>,
    ctx1: NavContext<'a>,
    ok: bool,
) -> bool {
    match stack_after(ctx0, action) {
        Some(stack) => {
            &&& ok
            &&& ctx1.spec_stack() == stack
            &&& s1 == (NavState {
                focus: Focus::Menu,
                current_view: None,
                clickables_state: 0,
                menu_state: default_row(ctx1),
                ..s0
            })
        },
        None => !ok && ctx1.spec_stack() == ctx0.spec_stack() && s1 == s0,
    }
}

/// What activating a menu item does.
pub open spec fn menu_outcome<'a>(
    s0: NavState<'a>,
    ctx0: NavContext<'a>,
    action: MenuItemAction<'a>,
    s1: NavState<'a>,
    ctx1: NavContext<'a>,
    r: Result<Effect<'a>, LookupError>,
) -> bool {
    match action {
        MenuItemAction::NavAction(nav_action) => {
            &&& nav_outcome(s0, ctx0, nav_action, s1, ctx1, r is Ok)
            &&& r is Ok ==> r == Ok::<Effect<'a>, LookupError>(Effect::Nothing)
            &&& r is Err ==> r == Err::<Effect<'a>, LookupError>(LookupError::UnknownNav)
        },
        MenuItemAction::LoadView(view_id) => {
            &&& ctx1.spec_stack() == ctx0.spec_stack()
            &&& if ctx0.view_index(view_id) is Some {
                &&& r == Ok::<Effect<'a>, LookupError>(Effect::Nothing)
                &&& s1 == (NavState {
                    current_view: Some(view_id),
                    focus: Focus::Content,
                    clickables_state: 0,
                    ..s0
                })
            } else {
                r == Err::<Effect<'a>, LookupError>(LookupError::UnknownView) && s1 == s0
            }
        },
        MenuItemAction::External(index) => {
            &&& r == Ok::<Effect<'a>, LookupError>(Effect::External(index))
            &&& ctx1.spec_stack() == ctx0.spec_stack()
            &&& s1 == s0
        },
    }
}

/// The action of the highlighted row of the current menu.
pub open spec fn selected_action<'a>(s: NavState<'a>, ctx: NavContext<'a>) -> MenuItemAction<'a> {
    ctx.nav_of(ctx.spec_top().unwrap()).items()[s.menu_state as int].spec_action()
}

/// The loaded view.
pub open spec fn loaded_view<'a>(s: NavState<'a>, ctx: NavContext<'a>) -> ContentView {
    ctx.spec_views()[ctx.view_index(s.current_view.unwrap()).unwrap()]
}

/// What a key press does. Keys that change nothing leave state and stack as
/// they are and hand back `Effect::Nothing`.
pub open spec fn key_outcome<'a>(
    s0: NavState<'a>,
    ctx0: NavContext<'a>,
    key: Key,
    snapshot: &AsyncState,
    s1: NavState<'a>,
    ctx1: NavContext<'a>,
    r: Result<Effect<'a>, LookupError>,
) -> bool {
    let unchanged = ctx1.spec_stack() == ctx0.spec_stack();
    let done = Ok::<Effect<'a>, LookupError>(Effect::Nothing);
    if s0.show_keybinds_modal {
        &&& r == done && unchanged
        &&& s1 == (NavState {
            show_keybinds_modal: !(key == Key::Esc || key == Key::Char('?')),
            ..s0
        })
    } else if key == Key::Char('q') {
        r == done && unchanged && s1 == (NavState { exit: true, ..s0 })
    } else if key == Key::Char('?') {
        r == done && unchanged && s1 == (NavState { show_keybinds_modal: true, ..s0 })
    } else if key == Key::Esc || is_left(key) {
        r == done && unchanged && s1 == (NavState { focus: Focus::Menu, ..s0 })
    } else if key == Key::Char('z') {
        r == Ok::<Effect<'a>, LookupError>(Effect::Suspend) && unchanged && s1 == s0
    } else if ctx0.spec_top() is None {
        r == done && unchanged && s1 == s0
    } else if is_up(key) {
        &&& r == done && unchanged
        &&& s1 == if s0.focus == Focus::Menu {
            NavState { menu_state: saturating_sub(s0.menu_state, 1), ..s0 }
        } else {
            NavState {
                clickables_state: cursor_up(
                    loaded_view(s0, ctx0).spec_interactivity(snapshot),
                    s0.clickables_state,
                ),
                ..s0
            }
        }
    } else if is_down(key) {
        &&& r == done && unchanged
        &&& s1 == if s0.focus == Focus::Menu {
            if s0.menu_state + 1 < ctx0.nav_of(ctx0.spec_top().unwrap()).items().len() {
                NavState { menu_state: (s0.menu_state + 1) as usize, ..s0 }
            } else {
                s0
            }
        } else {
            NavState {
                clickables_state: cursor_down(
                    loaded_view(s0, ctx0).spec_interactivity(snapshot),
                    s0.clickables_state,
                ),
                ..s0
            }
        }
    } else if (is_right(key) || key == Key::Enter) && s0.focus == Focus::Menu {
        menu_outcome(s0, ctx0, selected_action(s0, ctx0), s1, ctx1, r)
    } else if key == Key::Enter {
        &&& r == Ok::<Effect<'a>, LookupError>(
            loaded_view(s0, ctx0).spec_click(snapshot, s0.clickables_state),
        )
        &&& unchanged && s1 == s0
    } else {
        r == done && unchanged && s1 == s0
    }
}

/// The controller: transient UI state, the detail record of the chosen keg,
/// and the configuration.
pub struct App<'a> {
    nav: NavState<'a>,
    pub current_keg: Option<CurrentKeg>,
    pub config: &'a AppConfig,
}

impl<'a> App<'a> {
    pub closed spec fn state(&self) -> NavState<'a> {
        self.nav
    }

    pub closed spec fn spec_current_keg(&self) -> Option<CurrentKeg> {
        self.current_keg
    }

    pub closed spec fn spec_config(&self) -> &'a AppConfig {
        self.config
    }

    /// The transient state fits the registry and the current menu: the
    /// loaded view resolves, content focus has a loaded view, and the selected
    /// row lies within the current menu.
    pub open spec fn consistent(&self, ctx: &NavContext<'a>) -> bool {
        let s = self.state();
        &&& ctx.wf()
        &&& (s.current_view matches Some(v) ==> ctx.view_index(v) is Some)
        &&& (s.focus == Focus::Content ==> s.current_view is Some)
        &&& (ctx.spec_top() matches Some(top) ==> s.menu_state < ctx.nav_of(top).items().len())
    }

    /// A controller with menu focus, row 0, no loaded view and no keg chosen.
    pub fn new(config: &'a AppConfig) -> (r: Self)
        ensures
            r.state() == (NavState {
                exit: false,
                focus: Focus::Menu,
                menu_state: 0,
                current_view: None,
                clickables_state: 0,
                show_keybinds_modal: false,
            }),
            r.spec_current_keg() is None,
            r.spec_config() == config,
    {
        App {
            nav: NavState {
                exit: false,
                focus: Focus::Menu,
                menu_state: 0,
                current_view: None,
                clickables_state: 0,
                show_keybinds_modal: false,
            },
            current_keg: None,
            config,
        }
    }

    /// The cursor of the loaded view.
    pub fn interaction_state(&self) -> (r: usize)
        ensures
            r == self.state().clickables_state,
    {
        self.nav.clickables_state
    }

    /// The whole transient state.
    pub fn nav_state(&self) -> (r: NavState<'a>)
        ensures
            r == self.state(),
    {
        self.nav
    }

    /// Applies a navigation action to the stack and resets the transient
    /// state: focus on the menu, no loaded view, cursor 0, and the new top
    /// menu's default row selected. A push of a menu that does not resolve
    /// fails with `UnknownNav` and changes nothing.
    pub fn execute_nav_action(&mut self, context: &mut NavContext<'a>, nav_action: NavAction<'a>) -> (r: Result<(), LookupError>)
        requires
            old(context).wf(),
        ensures
            final(context).same_registry(old(context)),
            final(self).spec_current_keg() == old(self).spec_current_keg(),
            final(self).spec_config() == old(self).spec_config(),
            nav_outcome(old(self).state(), *old(context), nav_action, final(self).state(), *final(context), r is Ok),
            r is Err ==> r == Err::<(), LookupError>(LookupError::UnknownNav),
            r is Ok ==> final(self).state().focus == Focus::Menu,
            r is Ok ==> final(self).state().current_view is None,
            r is Ok ==> final(self).state().menu_state == default_row(*final(context)),
            old(self).consistent(old(context)) || r is Ok ==> final(self).consistent(final(context)),
    {
        match nav_action {
            NavAction::Pop => context.pop_nav(),
            NavAction::Push(nav_id) => {
                if context.get_nav_index(nav_id).is_none() {
                    return Err(LookupError::UnknownNav);
                }
                context.push_nav(nav_id);
            },
        }
        self.nav.focus = Focus::Menu;
        self.nav.current_view = None;
        self.nav.clickables_state = 0;
        self.nav.menu_state = match context.top_nav() {
            Some(top) => context.get_nav_ref(top).default_item(),
            None => 0,
        };
        Ok(())
    }

    fn load_view(&mut self, view_id: ViewID<'a>)
        ensures
            final(self).state() == (NavState {
                current_view: Some(view_id),
                focus: Focus::Content,
                clickables_state: 0,
                ..old(self).state()
            }),
            final(self).spec_current_keg() == old(self).spec_current_keg(),
            final(self).spec_config() == old(self).spec_config(),
    {
        self.nav.current_view = Some(view_id);
        self.nav.focus = Focus::Content;
        self.nav.clickables_state = 0;
    }

    /// Carries out a menu item's action: navigation, loading a view (which
    /// focuses the content with the cursor at 0), or handing an external
    /// collaborator to the caller.
    pub fn execute_menu_action(&mut self, context: &mut NavContext<'a>, menu_action: MenuItemAction<'a>) -> (r: Result<Effect<'a>, LookupError>)
        requires
            old(self).consistent(old(context)),
        ensures
            final(context).same_registry(old(context)),
            final(self).spec_current_keg() == old(self).spec_current_keg(),
            final(self).spec_config() == old(self).spec_config(),
            menu_outcome(old(self).state(), *old(context), menu_action, final(self).state(), *final(context), r),
            final(self).consistent(final(context)),
    {
        match menu_action {
            MenuItemAction::NavAction(nav_action) => match self.execute_nav_action(context, nav_action) {
                Ok(()) => Ok(Effect::Nothing),
                Err(e) => Err(e),
            },
            MenuItemAction::LoadView(view_id) => {
                if context.get_view_index(view_id).is_none() {
                    return Err(LookupError::UnknownView);
                }
                self.load_view(view_id);
                Ok(Effect::Nothing)
            },
            MenuItemAction::External(index) => Ok(Effect::External(index)),
        }
    }

    /// Reacts to one key press. Vertical movement in the content asks the
    /// loaded view for its interactivity against `state` each time.
    #[verifier::rlimit(50)]
    pub fn handle_key_event(&mut self, context: &mut NavContext<'a>, key: Key, state: &AsyncState) -> (r: Result<Effect<'a>, LookupError>)
        requires
            old(self).consistent(old(context)),
        ensures
            final(context).same_registry(old(context)),
            final(self).spec_current_keg() == old(self).spec_current_keg(),
            final(self).spec_config() == old(self).spec_config(),
            key_outcome(old(self).state(), *old(context), key, state, final(self).state(), *final(context), r),
            final(self).consistent(final(context)),
    {
        if self.nav.show_keybinds_modal {
            if key == Key::Esc || key == Key::Char('?') {
                self.nav.show_keybinds_modal = false;
            }
            return Ok(Effect::Nothing);
        }
        if key == Key::Char('q') {
            self.nav.exit = true;
            return Ok(Effect::Nothing);
        }
        if key == Key::Char('?') {
            self.nav.show_keybinds_modal = true;
            return Ok(Effect::Nothing);
        }
        if key == Key::Esc || key == Key::Left || key == Key::Char('h') {
            self.nav.focus = Focus::Menu;
            return Ok(Effect::Nothing);
        }
        if key == Key::Char('z') {
            return Ok(Effect::Suspend);
        }
        let current_nav = match context.top_nav() {
            Some(top) => top,
            None => return Ok(Effect::Nothing),
        };
        proof {
            context.lemma_index_in_range();
        }
        let menu_len = context.get_nav_ref(current_nav).menu().len();
        if key == Key::Up || key == Key::Char('k') {
            match self.nav.focus {
                Focus::Menu => {
                    self.nav.menu_state = self.nav.menu_state.saturating_sub(1);
                },
                Focus::Content => {
                    let view = context.get_view_ref(self.nav.current_view.unwrap());
                    match view.interactivity(self, state) {
                        ViewInteractivity::Passive => {},
                        ViewInteractivity::Scrollable => {
                            self.nav.clickables_state = self.nav.clickables_state.saturating_sub(3);
                        },
                        ViewInteractivity::Clickables(_) => {
                            self.nav.clickables_state = self.nav.clickables_state.saturating_sub(1);
                        },
                    }
                },
            }
            Ok(Effect::Nothing)
        } else if key == Key::Down || key == Key::Char('j') {
            match self.nav.focus {
                Focus::Menu => {
                    if self.nav.menu_state + 1 < menu_len {
                        self.nav.menu_state += 1;
                    }
                },
                Focus::Content => {
                    let view = context.get_view_ref(self.nav.current_view.unwrap());
                    match view.interactivity(self, state) {
                        ViewInteractivity::Passive => {},
                        ViewInteractivity::Scrollable => {
                            self.nav.clickables_state = self.nav.clickables_state.saturating_add(3);
                        },
                        ViewInteractivity::Clickables(count) => {
                            if count > 0 && self.nav.clickables_state < count - 1 {
                                self.nav.clickables_state += 1;
                            }
                        },
                    }
                },
            }
            Ok(Effect::Nothing)
        } else if (key == Key::Right || key == Key::Char('l') || key == Key::Enter) && self.nav.focus
            == Focus::Menu {
            let menu_action = *context.get_nav_ref(current_nav).menu()[self.nav.menu_state].action();
            self.execute_menu_action(context, menu_action)
        } else if key == Key::Enter {
            let view = context.get_view_ref(self.nav.current_view.unwrap());
            Ok(view.click(self, state, self.nav.clickables_state))
        } else {
            Ok(Effect::Nothing)
        }
    }

    /// Finishes a selection that `Effect::Select` asked for: stores the
    /// detail record, then applies the navigation action.
    pub fn complete_selection(&mut self, context: &mut NavContext<'a>, detail: CurrentKeg, then: NavAction<'a>) -> (r: Result<(), LookupError>)
        requires
            old(context).wf(),
        ensures
            final(context).same_registry(old(context)),
            final(self).spec_current_keg() == Some(detail),
            final(self).spec_config() == old(self).spec_config(),
            nav_outcome(old(self).state(), *old(context), then, final(self).state(), *final(context), r is Ok),
            r is Err ==> r == Err::<(), LookupError>(LookupError::UnknownNav),
            old(self).consistent(old(context)) || r is Ok ==> final(self).consistent(final(context)),
    {
        self.current_keg = Some(detail);
        self.execute_nav_action(context, then)
    }

    /// Whether `q` was pressed.
    pub fn should_exit(&self) -> (r: bool)
        ensures
            r == self.state().exit,
    {
        self.nav.exit
    }
}

} // verus!
