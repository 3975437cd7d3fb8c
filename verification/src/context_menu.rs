//! A context menu: a menu that appears over a view on a right click, or on
//! a two-finger tap, and goes away on the next press or key.
//!
//! This module decides when the menu opens and closes, and which popup
//! surfaces to create and destroy where menus are shown in popups; the
//! menu itself and its items `T` are drawn where the view is drawn.

use vstd::prelude::*;
use std::collections::HashSet;
use crate::dnd_destination::EventStatus;

verus! {

broadcast use vstd::std_specs::hash::group_hash_axioms;

/// The window of a view.
#[derive(Debug, Clone, Copy, PartialEq, Eq, Structural)]
pub enum WindowId {
    /// No window.
    NoWindow,
    /// The window identity reserved before one is assigned.
    Reserved,
    /// A window, or a popup surface, by its identity.
    Window(u64),
}

/// A tree of menu items: an item `T`, or an empty row where `item` is
/// `None`, with its place among its siblings and the trees under it.
pub struct MenuTree<T> {
    pub item: Option<T>,
    pub index: usize,
    pub children: Vec<MenuTree<T>>,
}

/// Whether two trees hold the same items in the same shape, whatever their
/// places say.
pub open spec fn same_items<T>(a: MenuTree<T>, b: MenuTree<T>) -> bool
    decreases a,
{
    &&& a.item == b.item
    &&& a.children.len() == b.children.len()
    &&& forall|i: int|
        #![trigger a.children@[i]]
        0 <= i < a.children.len() ==> same_items(a.children@[i], b.children@[i])
}

/// Whether each tree under `t`, at any depth, knows its place among its
/// siblings.
pub open spec fn numbered<T>(t: MenuTree<T>) -> bool
    decreases t,
{
    forall|i: int|
        #![trigger t.children@[i]]
        0 <= i < t.children.len() ==> t.children@[i].index == i && numbered(t.children@[i])
}

proof fn lemma_same_items_from_children<T>(a: MenuTree<T>, b: MenuTree<T>)
    requires
        a.item == b.item,
        a.children.len() == b.children.len(),
        forall|i: int| 0 <= i < a.children.len() ==> #[trigger] same_items(a.children@[i], b.children@[i]),
    ensures
        same_items(a, b),
{
    assert forall|i: int| 0 <= i < a.children.len() implies same_items(a.children@[i], b.children@[i]) by {
        assert(decreases_to!(a => a.children@[i]));
    }
}

impl<T> MenuTree<T> {
    /// An item with no children, first among its siblings.
    pub fn new(item: T) -> (r: Self)
        ensures
            r.item == Some(item),
            r.index == 0,
            r.children@.len() == 0,
    {
        MenuTree { item: Some(item), index: 0, children: Vec::new() }
    }

    /// An item, or an empty row, over the given trees, first among its
    /// siblings.
    pub fn with_children(item: Option<T>, children: Vec<MenuTree<T>>) -> (r: Self)
        ensures
            r.item == item,
            r.index == 0,
            r.children == children,
    {
        MenuTree { item, index: 0, children }
    }

    /// The same tree, each tree under it numbered by its place among its
    /// siblings.
    pub fn indexed(self) -> (r: Self)
        ensures
            same_items(self, r),
            numbered(r),
            r.index == self.index,
        decreases self,
    {
        let MenuTree { item, index, children } = self;
        let ghost old_children = children@;
        let mut rest = children;
        let mut done: Vec<MenuTree<T>> = Vec::new();
        let n = rest.len();
        let mut i: usize = 0;
        while i < n
            invariant
                n == old_children.len(),
                i <= n,
                rest@ == old_children.subrange(i as int, n as int),
                done@.len() == i,
                old_children == self.children@,
                forall|j: int| 0 <= j < i ==> #[trigger] same_items(old_children[j], done@[j]),
                forall|j: int| 0 <= j < i ==> (#[trigger] done@[j]).index == j && numbered(done@[j]),
            decreases n - i,
        {
            let child = rest.remove(0);
            proof {
                assert(child == self.children@[i as int]);
                assert(decreases_to!(self.children => self.children@[i as int]));
            }
            let mut renumbered = child.indexed();
            renumbered.index = i;
            done.push(renumbered);
            i = i + 1;
        }
        let r = MenuTree { item, index, children: done };
        assert(r.item == self.item);
        assert(r.children.len() == self.children.len());
        assert(forall|j: int| 0 <= j < r.children.len() ==> #[trigger] same_items(self.children@[j], r.children@[j]));
        proof {
            lemma_same_items_from_children(self, r);
        }
        r
    }
}

/// A view `E` with a context menu of item trees `T`; `A` makes the messages
/// that ask for popup surfaces.
pub struct ContextMenu<E, T, A> {
    pub content: E,
    pub context_menu: Option<Vec<MenuTree<T>>>,
    pub window_id: WindowId,
    pub close_on_escape: bool,
    pub on_surface_action: Option<A>,
}

/// A view with a context menu of the given trees, if any, closing on
/// escape, in the reserved window. The trees stand under one empty row,
/// each tree numbered by its place among its siblings.
pub fn context_menu<E, T, A>(content: E, menus: Option<Vec<MenuTree<T>>>) -> (r: ContextMenu<E, T, A>)
    ensures
        r.content == content,
        r.context_menu is Some == menus is Some,
        r.context_menu is Some ==> ({
            let roots = r.context_menu->0@;
            &&& roots.len() == 1
            &&& roots[0].item is None
            &&& roots[0].index == 0
            &&& same_items(MenuTree { item: None, index: 0, children: menus->0 }, roots[0])
            &&& numbered(roots[0])
        }),
        r.window_id == WindowId::Reserved,
        r.close_on_escape,
        r.on_surface_action is None,
{
    let context_menu = match menus {
        Some(menus) => {
            let mut roots: Vec<MenuTree<T>> = Vec::new();
            roots.push(MenuTree::with_children(None, menus).indexed());
            Some(roots)
        },
        None => None,
    };
    ContextMenu { content, context_menu, window_id: WindowId::Reserved, close_on_escape: true, on_surface_action: None }
}

impl<E, T, A> ContextMenu<E, T, A> {
    /// Sets what makes the messages that ask for popup surfaces.
    pub fn on_surface_action(self, handler: A) -> (r: Self)
        ensures
            r == (ContextMenu { on_surface_action: Some(handler), ..self }),
    {
        ContextMenu { on_surface_action: Some(handler), ..self }
    }

    /// Sets the window of the view.
    pub fn window_id(self, window_id: WindowId) -> (r: Self)
        ensures
            r == (ContextMenu { window_id, ..self }),
    {
        ContextMenu { window_id, ..self }
    }

    /// Sets whether the escape key closes the menu.
    pub fn close_on_escape(self, close_on_escape: bool) -> (r: Self)
        ensures
            r == (ContextMenu { close_on_escape, ..self }),
    {
        ContextMenu { close_on_escape, ..self }
    }
}

/// The state of a context menu; `P` is a position.
pub struct MenuState<P> {
    /// Whether the menu is open.
    pub open: bool,
    /// Where the menu was opened; none where the cursor's position was not
    /// known, which stands for the origin.
    pub context_cursor: Option<P>,
    /// The fingers touching the view.
    pub fingers_pressed: HashSet<u64>,
    /// The popup surface that shows the menu, where one was made.
    pub popup: Option<u64>,
    /// Whether a menu of the menu bar is active; the menu sets it.
    pub menu_active: bool,
}

/// What the context menu asks of popup surfaces.
#[derive(Debug, Clone, Copy, PartialEq, Eq, Structural)]
pub enum PopupRequest {
    /// Destroy the popup with this identity.
    Destroy(u64),
    /// Create a popup with this identity showing the menu.
    Create(u64),
}

impl<P> MenuState<P> {
    /// A closed menu, no finger touching.
    pub fn new() -> (r: Self)
        ensures
            !r.open,
            r.context_cursor is None,
            r.fingers_pressed@ == Set::<u64>::empty(),
            r.popup is None,
            !r.menu_active,
    {
        MenuState { open: false, context_cursor: None, fingers_pressed: HashSet::new(), popup: None, menu_active: false }
    }
}

/// An event as the context menu sees it.
pub enum MenuEvent {
    EscapePressed,
    LeftPressed,
    RightPressed,
    LeftReleased,
    RightReleased,
    FingerPressed(u64),
    FingerLifted(u64),
    /// The window got the focus.
    Focused,
    Other,
}

/// What becomes of the event after the menu took it.
#[derive(Debug, Clone, Copy, PartialEq, Eq, Structural)]
pub enum MenuOutcome {
    /// The menu opened; the event goes no further.
    Opened,
    /// The event goes on to the view, which answers it.
    ToContent,
}

/// Whether the event closes an open menu: the escape key, a left or right
/// press, a finger touching, or the window getting the focus.
pub open spec fn closes_open_menu(event: MenuEvent) -> bool {
    event is EscapePressed || event is LeftPressed || event is RightPressed || event is FingerPressed
        || event is Focused
}

/// The fingers touching after the event.
pub open spec fn fingers_after(fingers: Set<u64>, event: MenuEvent) -> Set<u64> {
    match event {
        MenuEvent::FingerPressed(id) => fingers.insert(id),
        MenuEvent::FingerLifted(id) => fingers.remove(id),
        _ => fingers,
    }
}

/// Whether the event opens the menu: a right release, or a finger lifted
/// while two touched.
pub open spec fn opens_menu(event: MenuEvent, fingers_before: nat) -> bool {
    event is RightReleased || (event is FingerLifted && fingers_before == 2)
}

/// A press of either button, a finger touching, the escape key and the
/// window getting the focus close an open menu, and none of them opens one;
/// a release or a lift never closes it before it is looked at over the view.
pub proof fn lemma_open_menu_closes_on_press(event: MenuEvent, fingers_before: nat)
    ensures
        (event is EscapePressed || event is LeftPressed || event is RightPressed || event is FingerPressed
            || event is Focused) ==> closes_open_menu(event) && !opens_menu(event, fingers_before),
        (event is LeftReleased || event is RightReleased || event is FingerLifted || event is Other)
            ==> !closes_open_menu(event),
{
}

/// A right release opens the menu whatever the fingers; lifting a finger
/// opens it exactly when two touched; nothing else opens it. A finger that
/// touches is counted, and one that is lifted no longer is.
pub proof fn lemma_menu_opens_on_release_or_two_finger_lift(event: MenuEvent, fingers: Set<u64>)
    ensures
        event is RightReleased ==> opens_menu(event, fingers.len()),
        event is FingerLifted ==> (opens_menu(event, fingers.len()) <==> fingers.len() == 2),
        !(event is RightReleased || event is FingerLifted) ==> !opens_menu(event, fingers.len()),
        event matches MenuEvent::FingerPressed(id) ==> fingers_after(fingers, event).contains(id)
            && fingers.subset_of(fingers_after(fingers, event)),
        event matches MenuEvent::FingerLifted(id) ==> !fingers_after(fingers, event).contains(id)
            && fingers_after(fingers, event).subset_of(fingers)
            && fingers.subset_of(fingers_after(fingers, event).insert(id)),
        !(event is FingerPressed || event is FingerLifted) ==> fingers_after(fingers, event) == fingers,
{
}

impl<E, T, A> ContextMenu<E, T, A> {
    /// Whether a popup is left from a menu that closed while one of its
    /// menus was active: it is destroyed before anything else.
    pub open spec fn stale_popup<P>(&self, s: MenuState<P>) -> bool {
        &&& self.window_id != WindowId::NoWindow
        &&& !s.open
        &&& s.menu_active
        &&& s.popup is Some
        &&& self.on_surface_action is Some
    }

    /// Handles an event; `over` tells whether the cursor is over the view,
    /// `cursor` where it is, when known; `popups` whether menus are shown in
    /// popup surfaces; `fresh_id` an unused surface identity.
    ///
    /// A popup left from a closed menu is destroyed first. An open menu
    /// closes on a press, a key or the focus, and the view gets the event.
    /// Otherwise, over the view, touching fingers are counted; a right
    /// release, or lifting one of two fingers, opens the menu there and
    /// stops the event; any other release or lift closes the menu. Closing
    /// destroys the menu's popup; opening in a window that can ask for
    /// popups creates one, reusing the identity of the one it replaces.
    pub fn on_event<P>(
        &self,
        state: &mut MenuState<P>,
        event: MenuEvent,
        over: bool,
        cursor: Option<P>,
        popups: bool,
        fresh_id: u64,
    ) -> (r: (MenuOutcome, Vec<PopupRequest>))
        requires
            popups && old(state).popup is Some ==> self.on_surface_action is Some,
        ensures
            old(state).open && (event is EscapePressed || event is LeftPressed || event is RightPressed
                || event is FingerPressed || event is Focused) ==> {
                &&& !final(state).open
                &&& r.0 == MenuOutcome::ToContent
                &&& final(state).fingers_pressed@ == old(state).fingers_pressed@
            },
            ({
                let stale = self.stale_popup(*old(state));
                let popup1 = if stale { None } else { old(state).popup };
                let active1 = if stale { false } else { old(state).menu_active };
                let reset: Seq<PopupRequest> = if stale { seq![PopupRequest::Destroy(old(state).popup->0)] } else { Seq::empty() };
                let closing: Seq<PopupRequest> = if popups && popup1 is Some { seq![PopupRequest::Destroy(popup1->0)] } else { Seq::empty() };
                let popup_closed = if popups { None } else { popup1 };
                if old(state).open && closes_open_menu(event) {
                    &&& !final(state).open
                    &&& !final(state).menu_active
                    &&& final(state).popup == popup_closed
                    &&& r.1@ == reset + closing
                    &&& final(state).context_cursor == old(state).context_cursor
                    &&& final(state).fingers_pressed@ == old(state).fingers_pressed@
                    &&& r.0 == MenuOutcome::ToContent
                } else if !over {
                    &&& final(state).open == old(state).open
                    &&& final(state).menu_active == active1
                    &&& final(state).popup == popup1
                    &&& r.1@ == reset
                    &&& final(state).context_cursor == old(state).context_cursor
                    &&& final(state).fingers_pressed@ == old(state).fingers_pressed@
                    &&& r.0 == MenuOutcome::ToContent
                } else {
                    &&& final(state).fingers_pressed@ == fingers_after(old(state).fingers_pressed@, event)
                    &&& if self.context_menu is Some && opens_menu(event, old(state).fingers_pressed@.len()) {
                        &&& final(state).open
                        &&& final(state).context_cursor == cursor
                        &&& r.0 == MenuOutcome::Opened
                        &&& if popups && self.window_id != WindowId::NoWindow && self.on_surface_action is Some {
                            match popup1 {
                                Some(id) => {
                                    &&& final(state).popup == Some(id)
                                    &&& !final(state).menu_active
                                    &&& r.1@ == reset + seq![PopupRequest::Destroy(id), PopupRequest::Create(id)]
                                },
                                None => {
                                    &&& final(state).popup == Some(fresh_id)
                                    &&& final(state).menu_active == active1
                                    &&& r.1@ == reset + seq![PopupRequest::Create(fresh_id)]
                                },
                            }
                        } else {
                            final(state).popup == popup1 && final(state).menu_active == active1 && r.1@ == reset
                        }
                    } else if event is RightReleased || event is FingerLifted || event is LeftReleased {
                        &&& !final(state).open
                        &&& !final(state).menu_active
                        &&& final(state).popup == popup_closed
                        &&& r.1@ == reset + closing
                        &&& final(state).context_cursor == old(state).context_cursor
                        &&& r.0 == MenuOutcome::ToContent
                    } else {
                        &&& final(state).open == old(state).open
                        &&& final(state).menu_active == active1
                        &&& final(state).popup == popup1
                        &&& r.1@ == reset
                        &&& final(state).context_cursor == old(state).context_cursor
                        &&& r.0 == MenuOutcome::ToContent
                    }
                }
            }),
    {
        let mut requests: Vec<PopupRequest> = Vec::new();
        let in_window = match self.window_id {
            WindowId::NoWindow => false,
            _ => true,
        };
        if in_window && !state.open && state.menu_active && self.on_surface_action.is_some() {
            match state.popup {
                Some(id) => {
                    requests.push(PopupRequest::Destroy(id));
                    state.popup = None;
                    state.menu_active = false;
                },
                None => {},
            }
        }
        let closes = match event {
            MenuEvent::EscapePressed | MenuEvent::LeftPressed | MenuEvent::RightPressed
            | MenuEvent::FingerPressed(_) | MenuEvent::Focused => true,
            _ => false,
        };
        if state.open && closes {
            self.close(state, popups, &mut requests);
            return (MenuOutcome::ToContent, requests);
        }
        if !over {
            return (MenuOutcome::ToContent, requests);
        }
        let fingers_before = state.fingers_pressed.len();
        match event {
            MenuEvent::FingerPressed(id) => {
                state.fingers_pressed.insert(id);
            },
            MenuEvent::FingerLifted(id) => {
                state.fingers_pressed.remove(&id);
            },
            _ => {},
        }
        let right_released = match event {
            MenuEvent::RightReleased => true,
            _ => false,
        };
        let lifted = match event {
            MenuEvent::FingerLifted(_) => true,
            _ => false,
        };
        let left_released = match event {
            MenuEvent::LeftReleased => true,
            _ => false,
        };
        if self.context_menu.is_some() && (right_released || (lifted && fingers_before == 2)) {
            state.context_cursor = cursor;
            state.open = true;
            if popups && in_window && self.on_surface_action.is_some() {
                match state.popup {
                    Some(id) => {
                        requests.push(PopupRequest::Destroy(id));
                        state.menu_active = false;
                        requests.push(PopupRequest::Create(id));
                    },
                    None => {
                        state.popup = Some(fresh_id);
                        requests.push(PopupRequest::Create(fresh_id));
                    },
                }
            }
            return (MenuOutcome::Opened, requests);
        }
        if right_released || lifted || left_released {
            self.close(state, popups, &mut requests);
        }
        (MenuOutcome::ToContent, requests)
    }

    /// Closes the menu: no menu stays active, and its popup, if any, is
    /// destroyed where menus are shown in popups.
    fn close<P>(&self, state: &mut MenuState<P>, popups: bool, requests: &mut Vec<PopupRequest>)
        ensures
            !final(state).open,
            !final(state).menu_active,
            final(state).popup == (if popups { None } else { old(state).popup }),
            final(requests)@ == old(requests)@ + (if popups && old(state).popup is Some {
                seq![PopupRequest::Destroy(old(state).popup->0)]
            } else {
                Seq::<PopupRequest>::empty()
            }),
            final(state).context_cursor == old(state).context_cursor,
            final(state).fingers_pressed@ == old(state).fingers_pressed@,
    {
        state.open = false;
        state.menu_active = false;
        if popups {
            match state.popup {
                Some(id) => {
                    requests.push(PopupRequest::Destroy(id));
                    state.popup = None;
                },
                None => {},
            }
        }
        assert(requests@ =~= old(requests)@ + (if popups && old(state).popup is Some {
            seq![PopupRequest::Destroy(old(state).popup->0)]
        } else {
            Seq::<PopupRequest>::empty()
        }));
    }

    /// Whether the menu is drawn over the view: when it has items and is
    /// open, unless it is shown in a popup surface of its window.
    pub fn shows_menu<P>(&self, state: &MenuState<P>, popups: bool) -> (r: bool)
        ensures
            r == (!(popups && self.window_id != WindowId::NoWindow && self.on_surface_action is Some)
                && self.context_menu is Some && state.open),
    {
        let in_popup = popups && match self.window_id {
            WindowId::NoWindow => false,
            _ => true,
        } && self.on_surface_action.is_some();
        !in_popup && self.context_menu.is_some() && state.open
    }
}

} // verus!
