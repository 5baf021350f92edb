//! Navigation registry and stack: views and menus ("navs") registered once at
//! startup, addressed by position or by name, and a stack of active menus.
use vstd::prelude::*;
use vstd::string::*;

use crate::views::ContentView;

verus! {

/// Identifies a registered content view, by position or by registered name.
#[derive(Clone, Copy)]
pub enum ViewID<'a> {
    Index(usize),
    Named(&'a str),
}

/// Identifies a registered menu, by position or by registered name.
#[derive(Clone, Copy)]
pub enum NavID<'a> {
    Index(usize),
    Named(&'a str),
}

/// A change of the navigation stack.
#[derive(Clone, Copy)]
pub enum NavAction<'a> {
    Pop,
    Push(NavID<'a>),
}

/// What activating a menu item does. `External` names, by position, one of the
/// blocking collaborators that the embedding program runs with the terminal
/// handed back.
#[derive(Clone, Copy)]
pub enum MenuItemAction<'a> {
    NavAction(NavAction<'a>),
    LoadView(ViewID<'a>),
    External(usize),
}

/// One row of a menu.
pub struct MenuItem<'a> {
    name: String,
    is_default: bool,
    action: MenuItemAction<'a>,
}

impl<'a> MenuItem<'a> {
    pub closed spec fn spec_name(&self) -> Seq<char> {
        self.name@
    }

    pub closed spec fn spec_is_default(&self) -> bool {
        self.is_default
    }

    pub closed spec fn spec_action(&self) -> MenuItemAction<'a> {
        self.action
    }

    /// A menu item that is not flagged as its menu's default.
    pub fn new(name: &str, action: MenuItemAction<'a>) -> (r: Self)
        ensures
            r.spec_name() == name@,
            !r.spec_is_default(),
            r.spec_action() == action,
    {
        MenuItem { name: name.to_owned(), is_default: false, action }
    }

    /// The same item, flagged as its menu's default.
    pub fn default(self) -> (r: Self)
        ensures
            r.spec_name() == self.spec_name(),
            r.spec_is_default(),
            r.spec_action() == self.spec_action(),
    {
        MenuItem { is_default: true, ..self }
    }

    pub fn name(&self) -> (r: &str)
        ensures
            r@ == self.spec_name(),
    {
        self.name.as_str()
    }

    pub fn action(&self) -> (r: &MenuItemAction<'a>)
        ensures
            *r == self.spec_action(),
    {
        &self.action
    }
}

/// `d` is the default row of `menu`: the first flagged item, or row 0 when no
/// item is flagged.
pub open spec fn is_default_choice<'a>(menu: Seq<MenuItem<'a>>, d: int) -> bool {
    &&& 0 <= d < menu.len()
    &&& forall|j: int| 0 <= j < d ==> !(#[trigger] menu[j]).spec_is_default()
    &&& menu[d].spec_is_default() || (d == 0 && forall|j: int|
        0 <= j < menu.len() ==> !(#[trigger] menu[j]).spec_is_default())
}

/// A non-empty menu with its precomputed default row.
pub struct Nav<'a> {
    menu: Vec<MenuItem<'a>>,
    default_item: usize,
}

impl<'a> Nav<'a> {
    pub closed spec fn items(&self) -> Seq<MenuItem<'a>> {
        self.menu@
    }

    pub closed spec fn spec_default_item(&self) -> int {
        self.default_item as int
    }

    pub open spec fn wf(&self) -> bool {
        is_default_choice(self.items(), self.spec_default_item())
    }

    pub fn menu(&self) -> (r: &[MenuItem<'a>])
        ensures
            r@ == self.items(),
    {
        self.menu.as_slice()
    }

    pub fn default_item(&self) -> (r: usize)
        ensures
            r == self.spec_default_item(),
    {
        self.default_item
    }
}

/// Position of the last entry of `names` equal to `name`: the registration
/// that a name resolves to.
pub open spec fn last_index_of(names: Seq<Seq<char>>, name: Seq<char>) -> Option<int>
    decreases names.len(),
{
    if names.len() == 0 {
        None
    } else if names.last() == name {
        Some(names.len() - 1)
    } else {
        last_index_of(names.drop_last(), name)
    }
}

/// A name resolves to a valid position.
pub proof fn lemma_last_index_in_range(names: Seq<Seq<char>>, name: Seq<char>)
    ensures
        last_index_of(names, name) matches Some(i) ==> 0 <= i < names.len() && names[i] == name,
    decreases names.len(),
{
    if names.len() > 0 && names.last() != name {
        lemma_last_index_in_range(names.drop_last(), name);
    }
}

/// Registering one more name changes the resolution of that name only.
pub proof fn lemma_last_index_push(names: Seq<Seq<char>>, extra: Seq<char>, name: Seq<char>)
    ensures
        last_index_of(names.push(extra), name) == if extra == name {
            Some(names.len() as int)
        } else {
            last_index_of(names, name)
        },
{
    assert(names.push(extra).drop_last() =~= names);
}

fn str_eq(a: &str, b: &str) -> (r: bool)
    ensures
        r == (a@ == b@),
{
    let n = a.unicode_len();
    if n != b.unicode_len() {
        return false;
    }
    let mut i: usize = 0;
    while i < n
        invariant
            n == a@.len(),
            n == b@.len(),
            i <= n,
            forall|k: int| 0 <= k < i ==> a@[k] == b@[k],
        decreases n - i,
    {
        if a.get_char(i) != b.get_char(i) {
            return false;
        }
        i += 1;
    }
    assert(a@ =~= b@);
    true
}

pub open spec fn names_view<'a>(names: Seq<&'a str>) -> Seq<Seq<char>> {
    names.map_values(|s: &'a str| s@)
}

fn find_last<'a>(names: &Vec<&'a str>, name: &str) -> (r: Option<usize>)
    ensures
        match r {
            Some(i) => last_index_of(names_view(names@), name@) == Some(i as int),
            None => last_index_of(names_view(names@), name@) == None::<int>,
        },
{
    let ghost all = names_view(names@);
    let mut i: usize = names.len();
    assert(all.subrange(0, i as int) =~= all);
    while i > 0
        invariant
            i <= names@.len(),
            all == names_view(names@),
            last_index_of(all, name@) == last_index_of(all.subrange(0, i as int), name@),
        decreases i,
    {
        let j = i - 1;
        assert(all.subrange(0, i as int).drop_last() =~= all.subrange(0, j as int));
        if str_eq(names[j], name) {
            return Some(j);
        }
        i = j;
    }
    assert(all.subrange(0, 0) =~= Seq::<Seq<char>>::empty());
    None
}

/// The stack after a pop: the top removed, or an empty stack left as it is.
pub open spec fn popped<'a>(stack: Seq<NavID<'a>>) -> Seq<NavID<'a>> {
    if stack.len() == 0 {
        stack
    } else {
        stack.drop_last()
    }
}

/// The stack after pushing each of `ids` in turn.
pub open spec fn pushed_all<'a>(stack: Seq<NavID<'a>>, ids: Seq<NavID<'a>>) -> Seq<NavID<'a>>
    decreases ids.len(),
{
    if ids.len() == 0 {
        stack
    } else {
        pushed_all(stack, ids.drop_last()).push(ids.last())
    }
}

/// The stack after `n` pops.
pub open spec fn popped_n<'a>(stack: Seq<NavID<'a>>, n: nat) -> Seq<NavID<'a>>
    decreases n,
{
    if n == 0 {
        stack
    } else {
        popped_n(popped(stack), (n - 1) as nat)
    }
}

/// Popping an empty stack leaves it empty, so its top stays `None`; and
/// popping as many times as menus were pushed gives back the stack from
/// before the first push, and with it the same top.
pub proof fn lemma_stack_discipline<'a>(stack: Seq<NavID<'a>>, ids: Seq<NavID<'a>>)
    ensures
        popped(Seq::<NavID<'a>>::empty()) == Seq::<NavID<'a>>::empty(),
        popped_n(pushed_all(stack, ids), ids.len()) == stack,
    decreases ids.len(),
{
    if ids.len() > 0 {
        let inner = pushed_all(stack, ids.drop_last());
        assert(popped(inner.push(ids.last())) =~= inner);
        lemma_stack_discipline(stack, ids.drop_last());
    }
}

/// The default row of a menu is the flagged item when exactly one item is
/// flagged, row 0 when none is, and the first flagged item when several are.
pub proof fn lemma_default_item<'a>(menu: Seq<MenuItem<'a>>, d: int)
    requires
        is_default_choice(menu, d),
    ensures
        forall|k: int|
            0 <= k < menu.len() && (#[trigger] menu[k]).spec_is_default() && (forall|j: int|
                0 <= j < menu.len() && j != k ==> !(#[trigger] menu[j]).spec_is_default()) ==> d == k,
        (forall|j: int| 0 <= j < menu.len() ==> !(#[trigger] menu[j]).spec_is_default()) ==> d == 0,
        (exists|k: int| 0 <= k < menu.len() && (#[trigger] menu[k]).spec_is_default()) ==> {
            &&& menu[d].spec_is_default()
            &&& forall|j: int| 0 <= j < d ==> !(#[trigger] menu[j]).spec_is_default()
        },
{
}

/// The registry of views and menus, and the navigation stack.
pub struct NavContext<'a> {
    views: Vec<ContentView>,
    view_names: Vec<&'a str>,
    navs: Vec<Nav<'a>>,
    nav_names: Vec<&'a str>,
    stack: Vec<NavID<'a>>,
}

impl<'a> NavContext<'a> {
    pub closed spec fn spec_views(&self) -> Seq<ContentView> {
        self.views@
    }

    pub closed spec fn spec_view_names(&self) -> Seq<Seq<char>> {
        names_view(self.view_names@)
    }

    pub closed spec fn spec_navs(&self) -> Seq<Nav<'a>> {
        self.navs@
    }

    pub closed spec fn spec_nav_names(&self) -> Seq<Seq<char>> {
        names_view(self.nav_names@)
    }

    /// The navigation stack, bottom first.
    pub closed spec fn spec_stack(&self) -> Seq<NavID<'a>> {
        self.stack@
    }

    /// The position that a view identifier resolves to, if any.
    pub open spec fn view_index(&self, id: ViewID<'a>) -> Option<int> {
        match id {
            ViewID::Index(i) => if i < self.spec_views().len() {
                Some(i as int)
            } else {
                None
            },
            ViewID::Named(name) => last_index_of(self.spec_view_names(), name@),
        }
    }

    /// The position that a menu identifier resolves to, if any.
    pub open spec fn nav_index(&self, id: NavID<'a>) -> Option<int> {
        match id {
            NavID::Index(i) => if i < self.spec_navs().len() {
                Some(i as int)
            } else {
                None
            },
            NavID::Named(name) => last_index_of(self.spec_nav_names(), name@),
        }
    }

    /// The top of the stack, if any.
    pub open spec fn spec_top(&self) -> Option<NavID<'a>> {
        if self.spec_stack().len() == 0 {
            None
        } else {
            Some(self.spec_stack().last())
        }
    }

    /// The menu that an identifier resolves to; meaningful where it resolves.
    pub open spec fn nav_of(&self, id: NavID<'a>) -> Nav<'a> {
        self.spec_navs()[self.nav_index(id).unwrap()]
    }

    /// Both hold the same registrations; their stacks may differ.
    pub open spec fn same_registry(&self, other: &NavContext<'a>) -> bool {
        &&& self.spec_views() == other.spec_views()
        &&& self.spec_view_names() == other.spec_view_names()
        &&& self.spec_navs() == other.spec_navs()
        &&& self.spec_nav_names() == other.spec_nav_names()
    }

    pub open spec fn wf(&self) -> bool {
        &&& self.spec_views().len() == self.spec_view_names().len()
        &&& self.spec_navs().len() == self.spec_nav_names().len()
        &&& forall|i: int| 0 <= i < self.spec_navs().len() ==> (#[trigger] self.spec_navs()[i]).wf()
        &&& forall|i: int|
            0 <= i < self.spec_stack().len() ==> self.nav_index(#[trigger] self.spec_stack()[i]).is_some()
    }

    /// A resolved name or index is a valid position.
    pub proof fn lemma_index_in_range(&self)
        requires
            self.wf(),
        ensures
            forall|id: ViewID<'a>| #[trigger] self.view_index(id) is Some ==> 0 <= self.view_index(id).unwrap() < self.spec_views().len(),
            forall|id: NavID<'a>| #[trigger] self.nav_index(id) is Some ==> 0 <= self.nav_index(id).unwrap() < self.spec_navs().len(),
    {
        assert forall|id: ViewID<'a>| #[trigger] self.view_index(id) is Some implies 0 <= self.view_index(id).unwrap() < self.spec_views().len() by {
            if let ViewID::Named(name) = id {
                lemma_last_index_in_range(self.spec_view_names(), name@);
            }
        }
        assert forall|id: NavID<'a>| #[trigger] self.nav_index(id) is Some implies 0 <= self.nav_index(id).unwrap() < self.spec_navs().len() by {
            if let NavID::Named(name) = id {
                lemma_last_index_in_range(self.spec_nav_names(), name@);
            }
        }
    }

    /// An empty registry with an empty stack.
    pub fn new() -> (r: Self)
        ensures
            r.wf(),
            r.spec_views().len() == 0,
            r.spec_navs().len() == 0,
            r.spec_stack().len() == 0,
    {
        let r = NavContext {
            views: Vec::new(),
            view_names: Vec::new(),
            navs: Vec::new(),
            nav_names: Vec::new(),
            stack: Vec::new(),
        };
        assert(r.spec_view_names() =~= Seq::<Seq<char>>::empty());
        assert(r.spec_nav_names() =~= Seq::<Seq<char>>::empty());
        r
    }

    /// Registers a view under `name` and returns its position. A later
    /// registration under the same name takes the name over; the earlier
    /// position stays valid.
    pub fn view(&mut self, name: &'a str, view: ContentView) -> (r: ViewID<'a>)
        requires
            old(self).wf(),
            old(self).spec_views().len() < usize::MAX,
        ensures
            final(self).wf(),
            final(self).spec_views() == old(self).spec_views().push(view),
            final(self).spec_view_names() == old(self).spec_view_names().push(name@),
            final(self).spec_navs() == old(self).spec_navs(),
            final(self).spec_nav_names() == old(self).spec_nav_names(),
            final(self).spec_stack() == old(self).spec_stack(),
            r == ViewID::Index(old(self).spec_views().len() as usize),
    {
        let ghost names_before = self.view_names@;
        self.views.push(view);
        self.view_names.push(name);
        assert(names_view(self.view_names@) =~= names_view(names_before).push(name@));
        assert forall|i: int| 0 <= i < self.spec_stack().len() implies self.nav_index(
            #[trigger] self.spec_stack()[i],
        ).is_some() by {
            assert(old(self).nav_index(self.spec_stack()[i]).is_some());
        }
        ViewID::Index(self.views.len() - 1)
    }

    /// Registers a non-empty menu under `name` and returns its position. Its
    /// default row is the first item flagged as default, else row 0.
    pub fn nav(&mut self, name: &'a str, menu: Vec<MenuItem<'a>>) -> (r: NavID<'a>)
        requires
            old(self).wf(),
            old(self).spec_navs().len() < usize::MAX,
            menu@.len() > 0,
        ensures
            final(self).wf(),
            final(self).spec_navs().len() == old(self).spec_navs().len() + 1,
            final(self).spec_navs().drop_last() == old(self).spec_navs(),
            final(self).spec_navs().last().items() == menu@,
            is_default_choice(menu@, final(self).spec_navs().last().spec_default_item()),
            final(self).spec_nav_names() == old(self).spec_nav_names().push(name@),
            final(self).spec_views() == old(self).spec_views(),
            final(self).spec_view_names() == old(self).spec_view_names(),
            final(self).spec_stack() == old(self).spec_stack(),
            r == NavID::Index(old(self).spec_navs().len() as usize),
    {
        let mut i: usize = 0;
        while i < menu.len()
            invariant
                i <= menu@.len(),
                forall|j: int| 0 <= j < i ==> !(#[trigger] menu@[j]).spec_is_default(),
            ensures
                i <= menu@.len(),
                forall|j: int| 0 <= j < i ==> !(#[trigger] menu@[j]).spec_is_default(),
                i < menu@.len() ==> menu@[i as int].spec_is_default(),
            decreases menu@.len() - i,
        {
            if menu[i].is_default {
                break;
            }
            i += 1;
        }
        let default_item = if i < menu.len() {
            i
        } else {
            0
        };
        let ghost names_before = self.nav_names@;
        let ghost old_navs = self.navs@;
        let nav = Nav { menu, default_item };
        assert(nav.wf());
        self.navs.push(nav);
        self.nav_names.push(name);
        assert(names_view(self.nav_names@) =~= names_view(names_before).push(name@));
        assert(self.navs@.drop_last() =~= old_navs);
        assert forall|k: int| 0 <= k < self.spec_stack().len() implies self.nav_index(
            #[trigger] self.spec_stack()[k],
        ).is_some() by {
            let id = self.spec_stack()[k];
            assert(old(self).nav_index(id).is_some());
            if let NavID::Named(n) = id {
                lemma_last_index_push(names_view(names_before), name@, n@);
            }
        }
        NavID::Index(self.navs.len() - 1)
    }

    /// Puts a menu on top of the stack.
    pub fn push_nav(&mut self, nav: NavID<'a>)
        requires
            old(self).wf(),
            old(self).nav_index(nav) is Some,
        ensures
            final(self).wf(),
            final(self).spec_stack() == old(self).spec_stack().push(nav),
            final(self).spec_views() == old(self).spec_views(),
            final(self).spec_view_names() == old(self).spec_view_names(),
            final(self).spec_navs() == old(self).spec_navs(),
            final(self).spec_nav_names() == old(self).spec_nav_names(),
    {
        self.stack.push(nav);
        assert forall|k: int| 0 <= k < self.spec_stack().len() implies self.nav_index(
            #[trigger] self.spec_stack()[k],
        ).is_some() by {
            if k < old(self).spec_stack().len() {
                assert(old(self).nav_index(old(self).spec_stack()[k]).is_some());
            }
        }
    }

    /// Removes the top of the stack; on an empty stack nothing happens.
    pub fn pop_nav(&mut self)
        requires
            old(self).wf(),
        ensures
            final(self).wf(),
            final(self).spec_stack() == popped(old(self).spec_stack()),
            final(self).spec_views() == old(self).spec_views(),
            final(self).spec_view_names() == old(self).spec_view_names(),
            final(self).spec_navs() == old(self).spec_navs(),
            final(self).spec_nav_names() == old(self).spec_nav_names(),
    {
        let _ = self.stack.pop();
        assert forall|k: int| 0 <= k < self.spec_stack().len() implies self.nav_index(
            #[trigger] self.spec_stack()[k],
        ).is_some() by {
            assert(old(self).nav_index(old(self).spec_stack()[k]).is_some());
        }
    }

    /// The top of the stack, without changing it.
    pub fn top_nav(&self) -> (r: Option<NavID<'a>>)
        ensures
            r == self.spec_top(),
    {
        if self.stack.len() == 0 {
            None
        } else {
            Some(self.stack[self.stack.len() - 1])
        }
    }

    /// The position that a view identifier resolves to; `None` for an index
    /// out of range or a name never registered.
    pub fn get_view_index(&self, id: ViewID<'a>) -> (r: Option<usize>)
        requires
            self.wf(),
        ensures
            match r {
                Some(i) => self.view_index(id) == Some(i as int),
                None => self.view_index(id) is None,
            },
    {
        proof {
            self.lemma_index_in_range();
        }
        match id {
            ViewID::Index(index) => if index < self.views.len() {
                Some(index)
            } else {
                None
            },
            ViewID::Named(name) => find_last(&self.view_names, name),
        }
    }

    /// The position that a menu identifier resolves to; `None` for an index
    /// out of range or a name never registered.
    pub fn get_nav_index(&self, id: NavID<'a>) -> (r: Option<usize>)
        requires
            self.wf(),
        ensures
            match r {
                Some(i) => self.nav_index(id) == Some(i as int),
                None => self.nav_index(id) is None,
            },
    {
        match id {
            NavID::Index(index) => if index < self.navs.len() {
                Some(index)
            } else {
                None
            },
            NavID::Named(name) => find_last(&self.nav_names, name),
        }
    }

    /// The view that a resolvable identifier names.
    pub fn get_view_ref(&self, id: ViewID<'a>) -> (r: &ContentView)
        requires
            self.wf(),
            self.view_index(id) is Some,
        ensures
            *r == self.spec_views()[self.view_index(id).unwrap()],
    {
        proof {
            self.lemma_index_in_range();
        }
        let index = self.get_view_index(id).unwrap();
        &self.views[index]
    }

    /// The menu that a resolvable identifier names.
    pub fn get_nav_ref(&self, id: NavID<'a>) -> (r: &Nav<'a>)
        requires
            self.wf(),
            self.nav_index(id) is Some,
        ensures
            *r == self.nav_of(id),
            r.wf(),
    {
        proof {
            self.lemma_index_in_range();
        }
        let index = self.get_nav_index(id).unwrap();
        &self.navs[index]
    }
}

} // verus!
