//! The model of a dropdown whose options are grouped in several lists.

use vstd::prelude::*;
use vstd::std_specs::cmp::PartialEqSpec;
use crate::dnd_destination::EventStatus;

verus! {

/// A list for a multi-list dropdown widget.
pub struct List<S, Item> {
    pub description: Option<S>,
    pub options: Vec<(S, Item)>,
}

/// A model for managing the options in a multi-list dropdown.
pub struct Model<S, Item> {
    pub lists: Vec<List<S, Item>>,
    pub selected: Option<Item>,
}

/// Create a [`Model`] for a multi-list dropdown.
pub fn model<S, Item>() -> (r: Model<S, Item>)
    ensures
        r.lists@.len() == 0,
        r.selected is None,
{
    Model { lists: Vec::new(), selected: None }
}

/// Create a [`List`] for a multi-list dropdown widget.
pub fn list<S, Item>(description: Option<S>, options: Vec<(S, Item)>) -> (r: List<S, Item>)
    ensures
        r.description == description,
        r.options == options,
{
    List { description, options }
}

/// The options of all lists, in order.
pub open spec fn all_options<S, Item>(lists: Seq<List<S, Item>>) -> Seq<(S, Item)>
    decreases lists.len(),
{
    if lists.len() == 0 {
        Seq::empty()
    } else {
        all_options(lists.drop_last()) + lists.last().options@
    }
}

/// An entry of the rendered menu.
pub enum OptionElement<'a, S, Item> {
    Description(&'a S),
    Option(&'a (S, Item)),
    Separator,
}

/// The entries that one list contributes: its description if it has one,
/// its options, then a separator.
pub open spec fn list_elements<'a, S, Item>(l: &'a List<S, Item>) -> Seq<OptionElement<'a, S, Item>> {
    let head: Seq<OptionElement<'a, S, Item>> = match &l.description {
        Some(d) => seq![OptionElement::Description(d)],
        None => Seq::empty(),
    };
    head + l.options@.map_values(|o: (S, Item)| OptionElement::<'a, S, Item>::Option(&o))
        + seq![OptionElement::Separator]
}

/// The entries of all lists, in order.
pub open spec fn all_elements<'a, S, Item>(lists: Seq<List<S, Item>>) -> Seq<OptionElement<'a, S, Item>>
    decreases lists.len(),
{
    if lists.len() == 0 {
        Seq::empty()
    } else {
        all_elements(lists.drop_last()) + list_elements(&lists.last())
    }
}

/// Whether `k` is the position of the first option whose item equals `item`.
pub open spec fn is_first_match<S, Item: PartialEq>(opts: Seq<(S, Item)>, item: &Item, k: int) -> bool {
    &&& 0 <= k < opts.len()
    &&& opts[k].1.eq_spec(item)
    &&& forall|j: int| 0 <= j < k ==> !#[trigger] opts[j].1.eq_spec(item)
}

/// Position of the first option whose item equals `item`, if any.
pub open spec fn first_match<S, Item: PartialEq>(opts: Seq<(S, Item)>, item: &Item) -> Option<int> {
    if exists|k: int| is_first_match(opts, item, k) {
        Some(choose|k: int| is_first_match(opts, item, k))
    } else {
        None
    }
}

proof fn lemma_all_options_take_step<S, Item>(lists: Seq<List<S, Item>>, i: int)
    requires
        0 <= i < lists.len(),
    ensures
        all_options(lists.take(i + 1)) == all_options(lists.take(i)) + lists[i].options@,
{
    assert(lists.take(i + 1).drop_last() =~= lists.take(i));
}

proof fn lemma_all_elements_take_step<'a, S, Item>(lists: Seq<List<S, Item>>, i: int)
    requires
        0 <= i < lists.len(),
    ensures
        all_elements::<'a, S, Item>(lists.take(i + 1)) == all_elements::<'a, S, Item>(lists.take(i)) + list_elements(&lists[i]),
{
    assert(lists.take(i + 1).drop_last() =~= lists.take(i));
}

impl<S, Item> Model<S, Item> {
    /// The options of all lists, in order.
    pub open spec fn options(&self) -> Seq<(S, Item)> {
        all_options(self.lists@)
    }

    /// Removes every list.
    pub fn clear(&mut self)
        ensures
            final(self).lists@.len() == 0,
            final(self).selected == old(self).selected,
    {
        self.lists.clear();
    }

    /// Appends a list.
    pub fn insert(&mut self, list: List<S, Item>)
        ensures
            final(self).lists@ == old(self).lists@.push(list),
            final(self).selected == old(self).selected,
    {
        self.lists.push(list);
    }

    /// The entries of the rendered menu: for each list, its description if it
    /// has one, its options, and a separator.
    pub fn elements(&self) -> (r: Vec<OptionElement<'_, S, Item>>)
        ensures
            r@ == all_elements(self.lists@),
    {
        let mut r: Vec<OptionElement<'_, S, Item>> = Vec::new();
        let mut i: usize = 0;
        assert(self.lists@.take(0) =~= Seq::<List<S, Item>>::empty());
        while i < self.lists.len()
            invariant
                0 <= i <= self.lists@.len(),
                r@ == all_elements(self.lists@.take(i as int)),
            decreases self.lists.len() - i,
        {
            let l = &self.lists[i];
            proof {
                lemma_all_elements_take_step::<S, Item>(self.lists@, i as int);
            }
            let ghost before = r@;
            match &l.description {
                Some(d) => r.push(OptionElement::Description(d)),
                None => {},
            }
            let ghost mid = r@;
            let mut j: usize = 0;
            while j < l.options.len()
                invariant
                    0 <= j <= l.options@.len(),
                    r@ == mid + l.options@.take(j as int).map_values(|o: (S, Item)| OptionElement::<'_, S, Item>::Option(&o)),
                decreases l.options.len() - j,
            {
                r.push(OptionElement::Option(&l.options[j]));
                assert(l.options@.take(j + 1) =~= l.options@.take(j as int).push(l.options@[j as int]));
                assert(r@ =~= mid + l.options@.take(j + 1).map_values(|o: (S, Item)| OptionElement::<'_, S, Item>::Option(&o)));
                j += 1;
            }
            assert(l.options@.take(j as int) =~= l.options@);
            r.push(OptionElement::Separator);
            assert(r@ =~= before + list_elements(l));
            i += 1;
        }
        assert(self.lists@.take(i as int) =~= self.lists@);
        r
    }
}


proof fn lemma_all_options_prefix<S, Item>(lists: Seq<List<S, Item>>, i: int)
    requires
        0 <= i <= lists.len(),
    ensures
        all_options(lists.take(i)).len() <= all_options(lists).len(),
        forall|p: int| 0 <= p < all_options(lists.take(i)).len()
            ==> #[trigger] all_options(lists.take(i))[p] == all_options(lists)[p],
    decreases lists.len() - i,
{
    if i == lists.len() {
        assert(lists.take(i) =~= lists);
    } else {
        let d = lists.drop_last();
        lemma_all_options_prefix(d, i);
        assert(d.take(i) =~= lists.take(i));
    }
}

/// The option at flat position `all_options(lists.take(i)).len() + j` is option `j` of list `i`.
proof fn lemma_flat_index<S, Item>(lists: Seq<List<S, Item>>, i: int, j: int)
    requires
        0 <= i < lists.len(),
        0 <= j < lists[i].options@.len(),
    ensures
        all_options(lists.take(i)).len() + j < all_options(lists).len(),
        all_options(lists)[all_options(lists.take(i)).len() + j] == lists[i].options@[j],
{
    lemma_all_options_take_step(lists, i);
    lemma_all_options_prefix(lists, i + 1);
    let q = all_options(lists.take(i)).len() + j;
    assert(all_options(lists.take(i + 1))[q] == lists[i].options@[j]);
}

proof fn lemma_first_match_is<S, Item: PartialEq>(opts: Seq<(S, Item)>, item: &Item, k: int)
    requires
        is_first_match(opts, item, k),
    ensures
        first_match(opts, item) == Some(k),
{
    let c = choose|c: int| is_first_match(opts, item, c);
    assert(is_first_match(opts, item, c));
    if c < k {
        assert(!opts[c].1.eq_spec(item));
    } else if c > k {
        assert(!opts[k].1.eq_spec(item));
    }
}

proof fn lemma_no_match<S, Item: PartialEq>(opts: Seq<(S, Item)>, item: &Item)
    requires
        forall|p: int| 0 <= p < opts.len() ==> !#[trigger] opts[p].1.eq_spec(item),
    ensures
        first_match(opts, item) is None,
{
    if exists|k: int| is_first_match(opts, item, k) {
        let k = choose|k: int| is_first_match(opts, item, k);
        assert(opts[k].1.eq_spec(item));
    }
}

impl<S, Item: PartialEq> Model<S, Item> {
    /// The label of the first option whose item equals `item`.
    pub fn get(&self, item: &Item) -> (r: Option<&S>)
        ensures
            Item::obeys_eq_spec() ==> match first_match(self.options(), item) {
                Some(k) => r == Some(&self.options()[k].0),
                None => r is None,
            },
    {
        let ghost opts = self.options();
        let mut i: usize = 0;
        assert(self.lists@.take(0) =~= Seq::<List<S, Item>>::empty());
        while i < self.lists.len()
            invariant
                0 <= i <= self.lists@.len(),
                opts == self.options(),
                Item::obeys_eq_spec() ==> forall|p: int| 0 <= p < all_options(self.lists@.take(i as int)).len()
                    ==> !#[trigger] opts[p].1.eq_spec(item),
            decreases self.lists.len() - i,
        {
            proof {
                lemma_all_options_prefix(self.lists@, i as int);
            }
            let l = &self.lists[i];
            let mut j: usize = 0;
            while j < l.options.len()
                invariant
                    0 <= i < self.lists@.len(),
                    l == self.lists@[i as int],
                    0 <= j <= l.options@.len(),
                    opts == self.options(),
                    Item::obeys_eq_spec() ==> forall|p: int| 0 <= p < all_options(self.lists@.take(i as int)).len() + j
                        ==> !#[trigger] opts[p].1.eq_spec(item),
                decreases l.options.len() - j,
            {
                proof {
                    lemma_flat_index(self.lists@, i as int, j as int);
                }
                if l.options[j].1 == *item {
                    proof {
                        if Item::obeys_eq_spec() {
                            lemma_first_match_is(opts, item, all_options(self.lists@.take(i as int)).len() + j);
                        }
                    }
                    return Some(&l.options[j].0);
                }
                j += 1;
            }
            proof {
                lemma_all_options_take_step(self.lists@, i as int);
            }
            i += 1;
        }
        proof {
            assert(self.lists@.take(i as int) =~= self.lists@);
            if Item::obeys_eq_spec() {
                lemma_no_match(opts, item);
            }
        }
        None
    }

    /// The option that follows the first option whose item equals the selected item.
    pub open spec fn spec_next(&self) -> Option<(S, Item)> {
        match self.selected {
            None => None,
            Some(sel) => match first_match(self.options(), &sel) {
                Some(k) => if k + 1 < self.options().len() {
                    Some(self.options()[k + 1])
                } else {
                    None
                },
                None => None,
            },
        }
    }

    /// The option after the selected one, across lists.
    pub fn next(&self) -> (r: Option<&(S, Item)>)
        ensures
            Item::obeys_eq_spec() ==> match self.spec_next() {
                Some(o) => r == Some(&o),
                None => r is None,
            },
    {
        let item = match &self.selected {
            Some(it) => it,
            None => return None,
        };
        let ghost opts = self.options();
        let mut found = false;
        let mut i: usize = 0;
        assert(self.lists@.take(0) =~= Seq::<List<S, Item>>::empty());
        while i < self.lists.len()
            invariant
                0 <= i <= self.lists@.len(),
                opts == self.options(),
                self.selected == Some(*item),
                Item::obeys_eq_spec() ==> (if found {
                    all_options(self.lists@.take(i as int)).len() > 0
                    && first_match(opts, item) == Some(all_options(self.lists@.take(i as int)).len() - 1)
                } else {
                    forall|p: int| 0 <= p < all_options(self.lists@.take(i as int)).len()
                        ==> !#[trigger] opts[p].1.eq_spec(item)
                }),
            decreases self.lists.len() - i,
        {
            proof {
                lemma_all_options_prefix(self.lists@, i as int);
            }
            let l = &self.lists[i];
            let mut j: usize = 0;
            while j < l.options.len()
                invariant
                    0 <= i < self.lists@.len(),
                    l == self.lists@[i as int],
                    0 <= j <= l.options@.len(),
                    opts == self.options(),
                    self.selected == Some(*item),
                    Item::obeys_eq_spec() ==> (if found {
                        all_options(self.lists@.take(i as int)).len() + j > 0
                        && first_match(opts, item) == Some(all_options(self.lists@.take(i as int)).len() + j - 1)
                    } else {
                        forall|p: int| 0 <= p < all_options(self.lists@.take(i as int)).len() + j
                            ==> !#[trigger] opts[p].1.eq_spec(item)
                    }),
                decreases l.options.len() - j,
            {
                proof {
                    lemma_flat_index(self.lists@, i as int, j as int);
                }
                if found {
                    return Some(&l.options[j]);
                }
                if l.options[j].1 == *item {
                    proof {
                        if Item::obeys_eq_spec() {
                            lemma_first_match_is(opts, item, all_options(self.lists@.take(i as int)).len() + j);
                        }
                    }
                    found = true;
                }
                j += 1;
            }
            proof {
                lemma_all_options_take_step(self.lists@, i as int);
            }
            i += 1;
        }
        proof {
            assert(self.lists@.take(i as int) =~= self.lists@);
        }
        None
    }
}


/// Appending a list appends its options to the options of the model.
pub proof fn lemma_insert_appends_options<S, Item>(lists: Seq<List<S, Item>>, l: List<S, Item>)
    ensures
        all_options(lists.push(l)) == all_options(lists) + l.options@,
{
    assert(lists.push(l).drop_last() =~= lists);
}

/// Appending a list appends its entries to the entries of the menu.
pub proof fn lemma_insert_appends_elements<'a, S, Item>(lists: Seq<List<S, Item>>, l: List<S, Item>)
    ensures
        all_elements::<'a, S, Item>(lists.push(l)) == all_elements::<'a, S, Item>(lists) + list_elements(&l),
{
    assert(lists.push(l).drop_last() =~= lists);
}

/// A model without lists has no options and no entries.
pub proof fn lemma_cleared_is_empty<'a, S, Item>(lists: Seq<List<S, Item>>)
    requires
        lists.len() == 0,
    ensures
        all_options(lists).len() == 0,
        all_elements::<'a, S, Item>(lists).len() == 0,
{
}

/// Appending a list does not change which option a lookup finds first when
/// the item was already among the options.
pub proof fn lemma_insert_keeps_first_match<S, Item: PartialEq>(lists: Seq<List<S, Item>>, l: List<S, Item>, item: &Item)
    requires
        first_match(all_options(lists), item) is Some,
    ensures
        first_match(all_options(lists.push(l)), item) == first_match(all_options(lists), item),
{
    lemma_insert_appends_options(lists, l);
    let opts = all_options(lists);
    let k = choose|c: int| is_first_match(opts, item, c);
    assert(is_first_match(opts, item, k));
    let all = all_options(lists.push(l));
    assert(all[k] == opts[k]);
    assert forall|j: int| 0 <= j < k implies !#[trigger] all[j].1.eq_spec(item) by {
        assert(all[j] == opts[j]);
    }
    lemma_first_match_is(all, item, k);
}

/// The local state of a multi-list dropdown.
pub struct DropdownState<Item> {
    pub is_open: bool,
    pub hovered_option: Option<Item>,
    /// Whether the command modifier key is held.
    pub command_pressed: bool,
}

impl<Item> DropdownState<Item> {
    /// A closed dropdown with no hovered option and no modifier held.
    pub fn new() -> (r: Self)
        ensures
            !r.is_open,
            r.hovered_option is None,
            !r.command_pressed,
    {
        DropdownState { is_open: false, hovered_option: None, command_pressed: false }
    }
}

/// An input event as the dropdown sees it.
pub enum DropdownEvent {
    /// The left button or a finger was pressed; `over` tells whether over the dropdown.
    Press { over: bool },
    /// The wheel scrolled by lines; `over` tells whether over the dropdown.
    ScrollLines { over: bool },
    /// The keyboard modifiers changed; `command` tells whether the command key is held.
    ModifiersChanged { command: bool },
    /// Any other event.
    Other,
}

/// The outcome of a press: an open dropdown closes; a closed one opens
/// when the press is over it, hovering a clone of the selected option.
pub open spec fn press_outcome<Item: Clone, M>(
    old_state: DropdownState<Item>,
    new_state: DropdownState<Item>,
    over: bool,
    selected: Option<Item>,
    r: (Option<M>, EventStatus),
) -> bool {
    if old_state.is_open {
        &&& !new_state.is_open
        &&& new_state.hovered_option == old_state.hovered_option
        &&& new_state.command_pressed == old_state.command_pressed
        &&& r.0 is None && r.1 == EventStatus::Captured
    } else if over {
        &&& new_state.is_open
        &&& new_state.command_pressed == old_state.command_pressed
        &&& (new_state.hovered_option is Some <==> selected is Some)
        &&& selected matches Some(sel) ==> cloned(sel, new_state.hovered_option->0)
        &&& r.0 is None && r.1 == EventStatus::Captured
    } else {
        new_state == old_state && r.0 is None && r.1 == EventStatus::Ignored
    }
}

/// The handler produced `m` for a clone of `item`.
pub open spec fn selected_clone_of<Item: Clone, M, F: Fn(Item) -> M>(f: F, item: Item, m: M) -> bool {
    exists|it: Item| cloned(item, it) && #[trigger] f.ensures((it,), m)
}

/// The outcome of scrolling by lines: over a closed dropdown with the
/// command key held, the handler receives a clone of the item after the
/// selected one; the state does not change.
pub open spec fn scroll_outcome<S, Item: Clone + PartialEq, M, F: Fn(Item) -> M>(
    old_state: DropdownState<Item>,
    new_state: DropdownState<Item>,
    over: bool,
    selections: Model<S, Item>,
    on_selected: F,
    r: (Option<M>, EventStatus),
) -> bool {
    &&& new_state == old_state
    &&& if old_state.command_pressed && over && !old_state.is_open {
        &&& r.1 == EventStatus::Captured
        &&& Item::obeys_eq_spec() ==> match selections.spec_next() {
            None => r.0 is None,
            Some(o) => r.0 matches Some(m) && selected_clone_of(on_selected, o.1, m),
        }
    } else {
        r.0 is None && r.1 == EventStatus::Ignored
    }
}

fn on_press<Item: Clone, M>(over: bool, selected: &Option<Item>, state: &mut DropdownState<Item>) -> (r: (Option<M>, EventStatus))
    ensures
        press_outcome(*old(state), *final(state), over, *selected, r),
{
    if state.is_open {
        state.is_open = false;
        (None, EventStatus::Captured)
    } else if over {
        state.is_open = true;
        state.hovered_option = selected.clone();
        (None, EventStatus::Captured)
    } else {
        (None, EventStatus::Ignored)
    }
}

fn on_scroll<S, M, Item: Clone + PartialEq, F: Fn(Item) -> M>(
    over: bool,
    on_selected: F,
    selections: &Model<S, Item>,
    state: &DropdownState<Item>,
) -> (r: (Option<M>, EventStatus))
    requires
        forall|it: Item| #[trigger] on_selected.requires((it,)),
    ensures
        scroll_outcome(*state, *state, over, *selections, on_selected, r),
{
    if state.command_pressed && over && !state.is_open {
        match selections.next() {
            Some(option) => {
                let it = option.1.clone();
                let ghost cloned_item = it;
                let m = on_selected(it);
                assert(cloned(option.1, cloned_item));
                (Some(m), EventStatus::Captured)
            },
            None => (None, EventStatus::Captured),
        }
    } else {
        (None, EventStatus::Ignored)
    }
}

/// Processes an event and updates the state of a dropdown accordingly.
///
/// A press closes an open dropdown, or opens a closed one when over it,
/// hovering the selected option. Scrolling over a closed dropdown with the
/// command key held selects the option after the selected one.
pub fn update<S, M, Item: Clone + PartialEq, F: Fn(Item) -> M>(
    event: DropdownEvent,
    on_selected: F,
    selections: &Model<S, Item>,
    state: &mut DropdownState<Item>,
) -> (r: (Option<M>, EventStatus))
    requires
        forall|it: Item| #[trigger] on_selected.requires((it,)),
    ensures
        match event {
            DropdownEvent::Press { over } => press_outcome(*old(state), *final(state), over, selections.selected, r),
            DropdownEvent::ScrollLines { over } => scroll_outcome(*old(state), *final(state), over, *selections, on_selected, r),
            DropdownEvent::ModifiersChanged { command } => {
                &&& final(state).command_pressed == command
                &&& final(state).is_open == old(state).is_open
                &&& final(state).hovered_option == old(state).hovered_option
                &&& r.0 is None && r.1 == EventStatus::Ignored
            },
            DropdownEvent::Other => *final(state) == *old(state) && r.0 is None && r.1 == EventStatus::Ignored,
        },
{
    match event {
        DropdownEvent::Press { over } => on_press(over, &selections.selected, state),
        DropdownEvent::ScrollLines { over } => on_scroll(over, on_selected, selections, state),
        DropdownEvent::ModifiersChanged { command } => {
            state.command_pressed = command;
            (None, EventStatus::Ignored)
        },
        DropdownEvent::Other => (None, EventStatus::Ignored),
    }
}


/// An event as the option list of an open dropdown's menu sees it.
pub enum ListEvent {
    /// The left button was pressed; `over` tells whether over the list.
    Press { over: bool },
    /// The cursor moved. `inside` tells whether it is over the list; then
    /// `entry` is the position, among the menu's entries, of the one under
    /// it, if any.
    CursorMoved { inside: bool, entry: Option<usize> },
    /// A finger touched the list, as for `CursorMoved`.
    FingerPressed { inside: bool, entry: Option<usize> },
    /// Any other event.
    Other,
}

/// The item of the option at position `entry` among the entries, if there
/// is an option there.
pub open spec fn entry_item<'a, S, Item>(elems: Seq<OptionElement<'a, S, Item>>, entry: Option<usize>) -> Option<Item> {
    match entry {
        Some(k) => if k < elems.len() {
            match elems[k as int] {
                OptionElement::Option(o) => Some(o.1),
                _ => None,
            }
        } else {
            None
        },
        None => None,
    }
}

/// Whether `prev` is the hovered item `it` already.
pub open spec fn hovers_already<Item: PartialEq>(prev: Option<Item>, it: Item) -> bool {
    prev matches Some(p) && p.eq_spec(&it)
}

/// The hovered option after the cursor or a finger came to the option `it`
/// (or to no option, `None`), and the hover message: the item stays when it
/// was hovered already; else a clone of it is hovered and, for the cursor,
/// the hover handler gets a clone.
pub open spec fn hover_outcome<Item: Clone + PartialEq, M, H: Fn(Item) -> M>(
    prev: Option<Item>,
    it: Option<Item>,
    on_hovered: Option<H>,
    report: bool,
    hovered: Option<Item>,
    message: Option<M>,
) -> bool {
    match it {
        None => hovered is None && message is None,
        Some(it) => if Item::obeys_eq_spec() && hovers_already(prev, it) {
            hovered == prev && message is None
        } else if Item::obeys_eq_spec() {
            &&& hovered matches Some(h) && cloned(it, h)
            &&& match on_hovered {
                Some(f) => if report {
                    message matches Some(m) && selected_clone_of(f, it, m)
                } else {
                    message is None
                },
                None => message is None,
            }
        } else {
            hovered is Some
        },
    }
}

fn hover_entry<S, Item: Clone + PartialEq, M, H: Fn(Item) -> M>(
    selections: &Model<S, Item>,
    entry: Option<usize>,
    on_hovered: &Option<H>,
    report: bool,
    hovered: &mut Option<Item>,
) -> (r: Option<M>)
    requires
        on_hovered matches Some(f) ==> forall|it: Item| #[trigger] f.requires((it,)),
    ensures
        hover_outcome(*old(hovered), entry_item(all_elements(selections.lists@), entry), *on_hovered, report, *final(hovered), r),
{
    let prev = hovered.take();
    let elems = selections.elements();
    let k = match entry {
        Some(k) => k,
        None => return None,
    };
    if k >= elems.len() {
        return None;
    }
    match &elems[k] {
        OptionElement::Option(o) => {
            let same = match &prev {
                Some(p) => *p == o.1,
                None => false,
            };
            if same {
                *hovered = prev;
                return None;
            }
            let mut message: Option<M> = None;
            if report {
                match on_hovered {
                    Some(f) => {
                        let it = o.1.clone();
                        let ghost c = it;
                        let m = f(it);
                        assert(cloned(o.1, c));
                        message = Some(m);
                    },
                    None => {},
                }
            }
            *hovered = Some(o.1.clone());
            message
        },
        _ => None,
    }
}

/// Handles an event on the option list of an open dropdown's menu; `hovered`
/// is the option under the pointer.
///
/// A press over the list selects the hovered option. Moving the cursor
/// over the list hovers the option under it, reporting a newly hovered one
/// to `on_option_hovered`; a finger hovers the option it touches and
/// selects it. The list never captures an event.
pub fn list_on_event<S, Item: Clone + PartialEq, M, F: Fn(Item) -> M, H: Fn(Item) -> M>(
    event: ListEvent,
    selections: &Model<S, Item>,
    hovered: &mut Option<Item>,
    on_selected: F,
    on_option_hovered: Option<H>,
) -> (r: (Vec<M>, EventStatus))
    requires
        forall|it: Item| #[trigger] on_selected.requires((it,)),
        on_option_hovered matches Some(f) ==> forall|it: Item| #[trigger] f.requires((it,)),
    ensures
        match event {
            ListEvent::Press { over } => match *old(hovered) {
                Some(it) => if over {
                    &&& *final(hovered) == *old(hovered)
                    &&& r.0@.len() == 1 && selected_clone_of(on_selected, it, r.0@[0])
                    &&& r.1 == EventStatus::Captured
                } else {
                    *final(hovered) == *old(hovered) && r.0@.len() == 0 && r.1 == EventStatus::Ignored
                },
                None => *final(hovered) == *old(hovered) && r.0@.len() == 0 && r.1 == EventStatus::Ignored,
            },
            ListEvent::CursorMoved { inside, entry } => {
                &&& r.1 == EventStatus::Ignored
                &&& if inside {
                    exists|m: Option<M>| {
                        &&& hover_outcome(*old(hovered), entry_item(all_elements(selections.lists@), entry), on_option_hovered, true, *final(hovered), m)
                        &&& r.0@ == match m { Some(x) => seq![x], None => Seq::<M>::empty() }
                    }
                } else {
                    *final(hovered) == *old(hovered) && r.0@.len() == 0
                }
            },
            ListEvent::FingerPressed { inside, entry } => {
                &&& r.1 == EventStatus::Ignored
                &&& if inside {
                    &&& hover_outcome(*old(hovered), entry_item(all_elements(selections.lists@), entry), on_option_hovered, false, *final(hovered), None)
                    &&& match *final(hovered) {
                        Some(h) => r.0@.len() == 1 && selected_clone_of(on_selected, h, r.0@[0]),
                        None => r.0@.len() == 0,
                    }
                } else {
                    *final(hovered) == *old(hovered) && r.0@.len() == 0
                }
            },
            ListEvent::Other => *final(hovered) == *old(hovered) && r.0@.len() == 0 && r.1 == EventStatus::Ignored,
        },
{
    let mut messages: Vec<M> = Vec::new();
    match event {
        ListEvent::Press { over } => {
            if over {
                match hovered {
                    Some(h) => {
                        let it = h.clone();
                        let ghost c = it;
                        let m = on_selected(it);
                        assert(cloned(*h, c));
                        messages.push(m);
                        return (messages, EventStatus::Captured);
                    },
                    None => {},
                }
            }
        },
        ListEvent::CursorMoved { inside, entry } => {
            if inside {
                let m = hover_entry(selections, entry, &on_option_hovered, true, hovered);
                match m {
                    Some(x) => messages.push(x),
                    None => {},
                }
                assert(messages@ == match m { Some(x) => seq![x], None => Seq::<M>::empty() });
            }
        },
        ListEvent::FingerPressed { inside, entry } => {
            if inside {
                let m = hover_entry(selections, entry, &on_option_hovered, false, hovered);
                match hovered {
                    Some(h) => {
                        let it = h.clone();
                        let ghost c = it;
                        let sel = on_selected(it);
                        assert(cloned(*h, c));
                        messages.push(sel);
                    },
                    None => {},
                }
            }
        },
        ListEvent::Other => {},
    }
    (messages, EventStatus::Ignored)
}


/// How an option of the menu is drawn.
#[derive(Debug, Clone, Copy, PartialEq, Eq, Structural)]
pub enum OptionStyle {
    /// On the selected background, in semibold, with a check mark.
    Selected,
    /// On the hovered background.
    Hovered,
    /// As plain text.
    Plain,
}

/// The style of the option for `item`: selected when it is the selected
/// item, else hovered when it is the hovered one, else plain.
pub open spec fn spec_option_style<Item: PartialEq>(selected: Option<Item>, hovered: Option<Item>, item: Item) -> OptionStyle {
    if selected matches Some(s) && s.eq_spec(&item) {
        OptionStyle::Selected
    } else if hovered matches Some(h) && h.eq_spec(&item) {
        OptionStyle::Hovered
    } else {
        OptionStyle::Plain
    }
}

/// The style of the option for `item`, given the selected and the hovered
/// items.
pub fn option_style<Item: PartialEq>(selected: &Option<Item>, hovered: &Option<Item>, item: &Item) -> (r: OptionStyle)
    ensures
        Item::obeys_eq_spec() ==> r == spec_option_style(*selected, *hovered, *item),
{
    let is_selected = match selected {
        Some(s) => *s == *item,
        None => false,
    };
    if is_selected {
        return OptionStyle::Selected;
    }
    let is_hovered = match hovered {
        Some(h) => *h == *item,
        None => false,
    };
    if is_hovered {
        OptionStyle::Hovered
    } else {
        OptionStyle::Plain
    }
}

} // verus!
