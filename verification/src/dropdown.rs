//! The state of a dropdown that selects one value from a list, whose menu
//! may be shown in a popup surface.

use vstd::prelude::*;
use crate::dnd_destination::EventStatus;
use crate::dropdown_multi::DropdownEvent;
use std::collections::hash_map::DefaultHasher;
use std::hash::{Hash, Hasher};
use vstd::std_specs::hash::DefaultHasherAdditionalSpecFns;

verus! {

/// The local state of a dropdown.
pub struct State {
    pub is_open: bool,
    /// A request to close the menu, carried out at the next event.
    pub close_operation: bool,
    /// A request to open the menu, carried out at the next event.
    pub open_operation: bool,
    pub hovered_option: Option<usize>,
    /// Whether the command modifier key is held.
    pub command_pressed: bool,
    /// The hash of each selection's text at the last diff.
    pub hashes: Vec<u64>,
}

/// What the dropdown asks of the popup surface of its menu.
#[derive(Debug, Clone, Copy, PartialEq, Eq, Structural)]
pub enum PopupRequest {
    /// Create a popup showing the menu.
    Open,
    /// Destroy the popup of the menu.
    Destroy,
}

/// The result of handling an event: the popup requests in order, the index
/// to report as selected, and whether the event was captured.
pub struct Outcome {
    pub requests: Vec<PopupRequest>,
    pub selected: Option<usize>,
    pub status: EventStatus,
}

impl State {
    /// A closed dropdown with nothing pending, hovered or held.
    pub fn new() -> (r: Self)
        ensures
            !r.is_open && !r.close_operation && !r.open_operation,
            r.hovered_option is None,
            !r.command_pressed,
            r.hashes@.len() == 0,
    {
        State {
            is_open: false,
            close_operation: false,
            open_operation: false,
            hovered_option: None,
            command_pressed: false,
            hashes: Vec::new(),
        }
    }

    /// Requests that the menu closes.
    pub fn close(&mut self)
        ensures
            *final(self) == (State { close_operation: true, ..*old(self) }),
    {
        self.close_operation = true;
    }

    /// Requests that the menu opens.
    pub fn open(&mut self)
        ensures
            *final(self) == (State { open_operation: true, ..*old(self) }),
    {
        self.open_operation = true;
    }
}

/// The state after the pending requests are carried out, and the popup
/// requests that this makes: a pending close closes the menu, destroying an
/// open popup; a pending open opens it, and shows a new popup unless the
/// menu was open and only an open was pending, hovering the selected option.
pub open spec fn after_pending(s: State, selected: Option<usize>) -> (State, Seq<PopupRequest>) {
    let was_open = s.is_open;
    let refresh = s.close_operation && s.open_operation;
    let closes: Seq<PopupRequest> = if s.close_operation && was_open { seq![PopupRequest::Destroy] } else { Seq::empty() };
    let reopens = s.open_operation && ((refresh && was_open) || (!refresh && !was_open));
    let opens: Seq<PopupRequest> = if reopens { seq![PopupRequest::Open] } else { Seq::empty() };
    let is_open = if s.open_operation { true } else if s.close_operation { false } else { was_open };
    (
        State {
            is_open,
            close_operation: false,
            open_operation: false,
            hovered_option: if reopens { selected } else { s.hovered_option },
            command_pressed: s.command_pressed,
            hashes: s.hashes,
        },
        closes + opens,
    )
}

/// The next index that scrolling reports: the one after the selected
/// index, or 0 without a selection.
pub open spec fn next_index(selected: Option<usize>) -> int {
    match selected {
        Some(i) => i + 1,
        None => 0,
    }
}

/// Processes an event and updates the state of a dropdown accordingly.
///
/// Pending requests are carried out first. Then a press closes an open
/// menu, or opens a closed one when over the dropdown. Scrolling over a
/// closed dropdown with the command key held reports the index after the
/// selected one when the list has fewer elements than that index.
pub fn update(event: DropdownEvent, selected: Option<usize>, selections_len: usize, state: &mut State) -> (r: Outcome)
    requires
        selected matches Some(i) ==> i < usize::MAX,
    ensures
        ({
            let (mid, pending) = after_pending(*old(state), selected);
            match event {
                DropdownEvent::Press { over } => if mid.is_open {
                    &&& *final(state) == (State { is_open: false, ..mid })
                    &&& r.requests@ == pending.push(PopupRequest::Destroy)
                    &&& r.selected is None && r.status == EventStatus::Captured
                } else if over {
                    &&& *final(state) == (State { is_open: true, hovered_option: selected, ..mid })
                    &&& r.requests@ == pending.push(PopupRequest::Open)
                    &&& r.selected is None && r.status == EventStatus::Captured
                } else {
                    *final(state) == mid && r.requests@ == pending && r.selected is None && r.status == EventStatus::Ignored
                },
                DropdownEvent::ScrollLines { over } => {
                    &&& *final(state) == mid
                    &&& r.requests@ == pending
                    &&& if mid.command_pressed && over && !mid.is_open {
                        &&& r.status == EventStatus::Captured
                        &&& r.selected == if selections_len < next_index(selected) { Some(next_index(selected) as usize) } else { None }
                    } else {
                        r.selected is None && r.status == EventStatus::Ignored
                    }
                },
                DropdownEvent::ModifiersChanged { command } => {
                    &&& *final(state) == (State { command_pressed: command, ..mid })
                    &&& r.requests@ == pending
                    &&& r.selected is None && r.status == EventStatus::Ignored
                },
                DropdownEvent::Other => *final(state) == mid && r.requests@ == pending && r.selected is None
                    && r.status == EventStatus::Ignored,
            }
        }),
{
    let mut requests: Vec<PopupRequest> = Vec::new();
    let was_open = state.is_open;
    let refresh = state.close_operation && state.open_operation;
    if state.close_operation {
        state.close_operation = false;
        state.is_open = false;
        if was_open {
            requests.push(PopupRequest::Destroy);
        }
    }
    if state.open_operation {
        state.open_operation = false;
        state.is_open = true;
        if (refresh && was_open) || (!refresh && !was_open) {
            state.is_open = true;
            state.hovered_option = selected;
            requests.push(PopupRequest::Open);
        }
    }
    proof {
        let (mid, pending) = after_pending(*old(state), selected);
        assert(requests@ =~= pending);
    }
    match event {
        DropdownEvent::Press { over } => {
            if state.is_open {
                state.is_open = false;
                requests.push(PopupRequest::Destroy);
                Outcome { requests, selected: None, status: EventStatus::Captured }
            } else if over {
                state.is_open = true;
                state.hovered_option = selected;
                requests.push(PopupRequest::Open);
                Outcome { requests, selected: None, status: EventStatus::Captured }
            } else {
                Outcome { requests, selected: None, status: EventStatus::Ignored }
            }
        },
        DropdownEvent::ScrollLines { over } => {
            if state.command_pressed && over && !state.is_open {
                let next = match selected {
                    Some(i) => i + 1,
                    None => 0,
                };
                let report = if selections_len < next { Some(next) } else { None };
                Outcome { requests, selected: report, status: EventStatus::Captured }
            } else {
                Outcome { requests, selected: None, status: EventStatus::Ignored }
            }
        },
        DropdownEvent::ModifiersChanged { command } => {
            state.command_pressed = command;
            Outcome { requests, selected: None, status: EventStatus::Ignored }
        },
        DropdownEvent::Other => Outcome { requests, selected: None, status: EventStatus::Ignored },
    }
}


/// What `<str as Hash>::hash` writes to a hasher for a text.
pub uninterp spec fn str_hash_writes(text: Seq<char>) -> Seq<Seq<u8>>;

/// `<str as Hash>::hash` on a `DefaultHasher`. Trusted to add to what the
/// hasher was written what hashing the text writes, which depends on the
/// text alone; those writes are named, not described.
#[verifier::external_body]
fn hash_str(text: &str, hasher: &mut DefaultHasher)
    ensures
        final(hasher)@ == old(hasher)@ + str_hash_writes(text@),
{
    text.hash(hasher)
}

/// The hash of a text: what `DefaultHasher::finish` gives after a hasher
/// made by `DefaultHasher::new`, which is unseeded, was fed the text alone.
pub open spec fn text_hash(text: Seq<char>) -> u64 {
    DefaultHasher::spec_finish(str_hash_writes(text))
}

/// The hash of a text.
fn hash_text(text: &str) -> (r: u64)
    ensures
        r == text_hash(text@),
{
    let mut hasher = DefaultHasher::new();
    hash_str(text, &mut hasher);
    assert(hasher@ =~= str_hash_writes(text@));
    hasher.finish()
}

/// The hashes of the selections' texts.
pub open spec fn selection_hashes(selections: Seq<String>) -> Seq<u64> {
    Seq::new(selections.len(), |i: int| text_hash(selections[i]@))
}

/// Whether the selections differ from those whose hashes were kept: their
/// number changed, or the hash of one's text did.
pub open spec fn selections_changed(hashes: Seq<u64>, selections: Seq<String>) -> bool {
    hashes.len() != selections.len()
        || exists|i: int| 0 <= i < selections.len() && #[trigger] hashes[i] != text_hash(selections[i]@)
}

impl State {
    /// Takes in the current selections: keeps the hash of each one's text,
    /// and when the menu is open and the selections changed, requests that
    /// it closes and opens again to show them.
    pub fn diff(&mut self, selections: &Vec<String>)
        ensures
            final(self).hashes@ == selection_hashes(selections@),
            if old(self).is_open && selections_changed(old(self).hashes@, selections@) {
                final(self).close_operation && final(self).open_operation
            } else {
                final(self).close_operation == old(self).close_operation
                    && final(self).open_operation == old(self).open_operation
            },
            final(self).is_open == old(self).is_open,
            final(self).hovered_option == old(self).hovered_option,
            final(self).command_pressed == old(self).command_pressed,
    {
        let n = selections.len();
        let ghost old_hashes = self.hashes@;
        let mut changed = self.hashes.len() != n;
        let mut hashes: Vec<u64> = Vec::new();
        let mut i: usize = 0;
        while i < n
            invariant
                n == selections@.len(),
                0 <= i <= n,
                old_hashes == self.hashes@,
                hashes@ == selection_hashes(selections@).take(i as int),
                changed == (old_hashes.len() != n
                    || exists|j: int| 0 <= j < i && #[trigger] old_hashes[j] != text_hash(selections@[j]@)),
            decreases n - i,
        {
            let h = hash_text(selections[i].as_str());
            if i >= self.hashes.len() || self.hashes[i] != h {
                changed = true;
            }
            hashes.push(h);
            assert(hashes@ =~= selection_hashes(selections@).take(i + 1));
            i += 1;
        }
        assert(hashes@ =~= selection_hashes(selections@));
        self.hashes = hashes;
        if self.is_open && changed {
            self.close_operation = true;
            self.open_operation = true;
        }
    }
}


/// Once the selections were taken in, taking the same ones in again finds
/// no change, so it requests nothing of the menu.
pub proof fn lemma_diff_settles(selections: Seq<String>)
    ensures
        !selections_changed(selection_hashes(selections), selections),
{
}


/// Pending requests are carried out at the next event: afterwards none is
/// pending, and the menu is open exactly when an open was pending, or it
/// was open and no close was pending.
pub proof fn lemma_pending_carried_out(s: State, selected: Option<usize>)
    ensures
        !after_pending(s, selected).0.close_operation,
        !after_pending(s, selected).0.open_operation,
        after_pending(s, selected).0.is_open == (s.open_operation || (s.is_open && !s.close_operation)),
{
}

} // verus!
