//! The content views: what each reports as its interactivity for a snapshot,
//! and what activating a target does.
use vstd::prelude::*;

use crate::app::{App, AsyncState, Effect, ViewInteractivity};
use crate::view::{NavAction, NavID};

verus! {

/// The name under which the menu of a chosen keg is registered.
pub const KEG_NAV: &'static str = "keg";

/// The list of discovered kegs; activating one opens its menu.
#[derive(Clone, Copy)]
pub struct KegsView;

/// The acknowledgements page, which scrolls.
#[derive(Clone, Copy)]
pub struct CreditsView;

/// The content pane of a keg's menu, which shows nothing interactive.
#[derive(Clone, Copy)]
pub struct KegMainView;

impl KegsView {
    /// One target per discovered keg; none while no keg is known.
    pub fn interactivity(&self, app: &App, state: &AsyncState) -> (r: ViewInteractivity)
        ensures
            r == ContentView::Kegs(*self).spec_interactivity(state),
    {
        if state.kegs.len() == 0 {
            ViewInteractivity::Passive
        } else {
            ViewInteractivity::Clickables(state.kegs.len())
        }
    }

    /// Activating the keg at `index` asks for its detail record and then
    /// opens the keg menu. Nothing happens where no keg is at `index`.
    pub fn click<'a>(&self, app: &App, state: &AsyncState, index: usize) -> (r: Effect<'a>)
        ensures
            r == ContentView::Kegs(*self).spec_click(state, index),
    {
        if index < state.kegs.len() {
            Effect::Select { keg: index, then: NavAction::Push(NavID::Named(KEG_NAV)) }
        } else {
            Effect::Nothing
        }
    }
}

impl CreditsView {
    pub fn interactivity(&self, app: &App, state: &AsyncState) -> (r: ViewInteractivity)
        ensures
            r == ViewInteractivity::Scrollable,
    {
        ViewInteractivity::Scrollable
    }
}

/// The views a menu item can load, dispatched by variant. A view that does not
/// react to input reports `ViewInteractivity::Passive` and ignores activation.
#[derive(Clone, Copy)]
pub enum ContentView {
    Kegs(KegsView),
    Credits(CreditsView),
    KegMain(KegMainView),
}

impl ContentView {
    pub open spec fn spec_interactivity(&self, state: &AsyncState) -> ViewInteractivity {
        match self {
            ContentView::Kegs(_) => if state.kegs@.len() == 0 {
                ViewInteractivity::Passive
            } else {
                ViewInteractivity::Clickables(state.kegs@.len() as usize)
            },
            ContentView::Credits(_) => ViewInteractivity::Scrollable,
            ContentView::KegMain(_) => ViewInteractivity::Passive,
        }
    }

    pub open spec fn spec_click<'a>(&self, state: &AsyncState, index: usize) -> Effect<'a> {
        match self {
            ContentView::Kegs(_) => if index < state.kegs@.len() {
                Effect::Select { keg: index, then: NavAction::Push(NavID::Named(KEG_NAV)) }
            } else {
                Effect::Nothing
            },
            _ => Effect::Nothing,
        }
    }

    /// How content-focused vertical movement behaves for this snapshot.
    pub fn interactivity(&self, app: &App, state: &AsyncState) -> (r: ViewInteractivity)
        ensures
            r == self.spec_interactivity(state),
    {
        match self {
            ContentView::Kegs(view) => view.interactivity(app, state),
            ContentView::Credits(view) => view.interactivity(app, state),
            ContentView::KegMain(_) => ViewInteractivity::Passive,
        }
    }

    /// What activating the target at `index` asks for.
    pub fn click<'a>(&self, app: &App, state: &AsyncState, index: usize) -> (r: Effect<'a>)
        ensures
            r == self.spec_click(state, index),
    {
        match self {
            ContentView::Kegs(view) => view.click(app, state, index),
            _ => Effect::Nothing,
        }
    }
}

} // verus!
