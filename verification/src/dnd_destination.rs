//! Drag-and-drop offers received by a drop destination.
//!
//! A destination follows one drag offer at a time: the offer is entered,
//! moves, may have an action selected, is dropped, and finally its data
//! arrives. Data that arrives before the drop goes to the data handler;
//! data that arrives after the drop finishes the offer.

use vstd::prelude::*;

verus! {

/// The set of actions that a drag-and-drop operation may perform.
///
/// The bits follow the wire values: copy is `1`, move is `2`, ask is `4`.
#[derive(Debug, Clone, Copy, PartialEq, Eq, Structural)]
pub struct DndAction {
    pub bits: u32,
}

impl DndAction {
    /// No action.
    pub fn empty() -> (r: Self)
        ensures
            r.bits == 0,
    {
        DndAction { bits: 0 }
    }

    /// The copy action.
    pub fn copy() -> (r: Self)
        ensures
            r.bits == 1,
    {
        DndAction { bits: 1 }
    }

    /// The move action.
    pub fn move_action() -> (r: Self)
        ensures
            r.bits == 2,
    {
        DndAction { bits: 2 }
    }

    /// The ask action.
    pub fn ask() -> (r: Self)
        ensures
            r.bits == 4,
    {
        DndAction { bits: 4 }
    }

    /// The union of two sets of actions.
    pub fn union(self, other: Self) -> (r: Self)
        ensures
            r.bits == self.bits | other.bits,
    {
        DndAction { bits: self.bits | other.bits }
    }

    /// Whether every action of `other` is in this set.
    pub fn contains(self, other: Self) -> (r: bool)
        ensures
            r == (self.bits & other.bits == other.bits),
    {
        self.bits & other.bits == other.bits
    }
}

/// Whether an event was handled by a widget.
#[derive(Debug, Clone, Copy, PartialEq, Eq, Structural)]
pub enum EventStatus {
    Ignored,
    Captured,
}

/// The offer that a destination is currently following.
pub struct DragOffer<T, C> {
    pub x: C,
    pub y: C,
    pub dropped: bool,
    pub selected_action: DndAction,
    pub data: T,
}

/// The drag-and-drop state of a destination.
pub struct State<T, C> {
    pub drag_offer: Option<DragOffer<T, C>>,
}

/// What the arrival of offer data leads to.
pub enum DataOutcome<C> {
    /// The offer was dropped: the finish handler receives the selected action
    /// and the position of the offer, and the offer ends.
    Finish(DndAction, C, C),
    /// The offer is still in progress: the data handler receives the data.
    Data,
    /// There is no offer, or no handler for data before the drop.
    Nothing,
}

/// A fresh offer at the given position.
pub open spec fn fresh_offer<T, C>(x: C, y: C, data: T) -> DragOffer<T, C> {
    DragOffer { x, y, dropped: false, selected_action: DndAction { bits: 0 }, data }
}

/// The enter handler produced `m` for the position and an empty list of offered types.
pub open spec fn entered_without_types<C, M, F: Fn(C, C, Vec<String>) -> M>(f: F, x: C, y: C, m: M) -> bool {
    exists|v: Vec<String>| v@.len() == 0 && #[trigger] f.ensures((x, y, v), m)
}

impl<T, C> State<T, C> {
    /// The state after an offer enters the destination.
    pub open spec fn after_enter(self, x: C, y: C, data: T) -> Self {
        State { drag_offer: Some(fresh_offer(x, y, data)) }
    }

    /// Whether leaving abandons the current offer: there is one and it was not dropped.
    pub open spec fn leave_abandons(self) -> bool {
        self.drag_offer matches Some(o) && !o.dropped
    }

    /// The state after the offer leaves the destination.
    pub open spec fn after_leave(self) -> Self {
        if self.leave_abandons() {
            State { drag_offer: None }
        } else {
            self
        }
    }

    /// The state after the offer moves to a new position.
    pub open spec fn after_motion(self, x: C, y: C, data: T) -> Self {
        match self.drag_offer {
            Some(o) => State {
                drag_offer: Some(DragOffer { x, y, dropped: o.dropped, selected_action: o.selected_action, data: o.data }),
            },
            None => State { drag_offer: Some(fresh_offer(x, y, data)) },
        }
    }

    /// The state after the offer is dropped.
    pub open spec fn after_drop(self) -> Self {
        match self.drag_offer {
            Some(o) => State {
                drag_offer: Some(DragOffer { x: o.x, y: o.y, dropped: true, selected_action: o.selected_action, data: o.data }),
            },
            None => self,
        }
    }

    /// The state after an action is selected for the offer.
    pub open spec fn after_action_selected(self, action: DndAction) -> Self {
        match self.drag_offer {
            Some(o) => State {
                drag_offer: Some(DragOffer { x: o.x, y: o.y, dropped: o.dropped, selected_action: action, data: o.data }),
            },
            None => self,
        }
    }

    /// What the arrival of data leads to, given whether a data handler is set.
    pub open spec fn data_outcome(self, has_data_handler: bool) -> DataOutcome<C> {
        match self.drag_offer {
            None => DataOutcome::Nothing,
            Some(o) => if o.dropped {
                DataOutcome::Finish(o.selected_action, o.x, o.y)
            } else if has_data_handler {
                DataOutcome::Data
            } else {
                DataOutcome::Nothing
            },
        }
    }

    /// The state after data arrives: a dropped offer ends, any other state stays.
    pub open spec fn after_data(self) -> Self {
        match self.drag_offer {
            Some(o) => if o.dropped {
                State { drag_offer: None }
            } else {
                self
            },
            None => self,
        }
    }
}

impl<T, C: Copy> State<T, C> {
    /// A state that follows no offer.
    pub fn new() -> (r: Self)
        ensures
            r.drag_offer is None,
    {
        State { drag_offer: None }
    }

    /// An offer enters the destination: a fresh offer is followed and the
    /// enter handler, if any, is called with the position and the offered types.
    pub fn on_enter<M, F: Fn(C, C, Vec<String>) -> M>(
        &mut self,
        x: C,
        y: C,
        mime_types: Vec<String>,
        on_enter: Option<F>,
        data: T,
    ) -> (r: Option<M>)
        requires
            on_enter matches Some(f) ==> f.requires((x, y, mime_types)),
        ensures
            *final(self) == old(self).after_enter(x, y, data),
            on_enter is None ==> r is None,
            on_enter matches Some(f) ==> (r matches Some(m) && f.ensures((x, y, mime_types), m)),
    {
        self.drag_offer = Some(DragOffer {
            x,
            y,
            dropped: false,
            selected_action: DndAction::empty(),
            data,
        });
        match on_enter {
            Some(f) => Some(f(x, y, mime_types)),
            None => None,
        }
    }

    /// The offer leaves the destination. An offer that was not dropped is
    /// abandoned and the leave handler, if any, is called; otherwise nothing happens.
    pub fn on_leave<M, F: Fn() -> M>(&mut self, on_leave: Option<F>) -> (r: Option<M>)
        requires
            on_leave matches Some(f) ==> f.requires(()),
        ensures
            *final(self) == old(self).after_leave(),
            !old(self).leave_abandons() ==> r is None,
            old(self).leave_abandons() && on_leave is None ==> r is None,
            old(self).leave_abandons() ==> (on_leave matches Some(f) ==> (r matches Some(m) && f.ensures((), m))),
    {
        let abandons = match &self.drag_offer {
            Some(d) => !d.dropped,
            None => false,
        };
        if abandons {
            self.drag_offer = None;
            match on_leave {
                Some(f) => Some(f()),
                None => None,
            }
        } else {
            None
        }
    }

    /// The offer moves. A followed offer takes the new position and the motion
    /// handler, if any, is called. Without an offer, a fresh one is followed and
    /// the enter handler is called with no offered types if it is set, else the
    /// motion handler.
    pub fn on_motion<M, FM: Fn(C, C) -> M, FE: Fn(C, C, Vec<String>) -> M>(
        &mut self,
        x: C,
        y: C,
        on_motion: Option<FM>,
        on_enter: Option<FE>,
        data: T,
    ) -> (r: Option<M>)
        requires
            on_motion matches Some(f) ==> f.requires((x, y)),
            on_enter matches Some(f) ==> forall|v: Vec<String>| v@.len() == 0 ==> #[trigger] f.requires((x, y, v)),
        ensures
            *final(self) == old(self).after_motion(x, y, data),
            old(self).drag_offer is None ==> (on_enter matches Some(f) ==> (r matches Some(m)
                && entered_without_types(f, x, y, m))),
            old(self).drag_offer is Some || on_enter is None ==> {
                &&& on_motion is None ==> r is None
                &&& on_motion matches Some(f) ==> (r matches Some(m) && f.ensures((x, y), m))
            },
    {
        match self.drag_offer.take() {
            Some(o) => {
                self.drag_offer = Some(DragOffer {
                    x,
                    y,
                    dropped: o.dropped,
                    selected_action: o.selected_action,
                    data: o.data,
                });
            },
            None => {
                self.drag_offer = Some(DragOffer {
                    x,
                    y,
                    dropped: false,
                    selected_action: DndAction::empty(),
                    data,
                });
                if let Some(f) = on_enter {
                    let none: Vec<String> = Vec::new();
                    let ghost empty_types = none;
                    let m = f(x, y, none);
                    assert(empty_types@.len() == 0);
                    assert(f.ensures((x, y, empty_types), m));
                    assert(exists|v: Vec<String>| v@.len() == 0 && #[trigger] f.ensures((x, y, v), m));
                    return Some(m);
                }
            },
        }
        match on_motion {
            Some(f) => Some(f(x, y)),
            None => None,
        }
    }

    /// The offer is dropped. A followed offer is marked dropped and the drop
    /// handler, if any, is called with its position.
    pub fn on_drop<M, F: Fn(C, C) -> M>(&mut self, on_drop: Option<F>) -> (r: Option<M>)
        requires
            on_drop matches Some(f) ==> (old(self).drag_offer matches Some(o) ==> f.requires((o.x, o.y))),
        ensures
            *final(self) == old(self).after_drop(),
            old(self).drag_offer is None || on_drop is None ==> r is None,
            old(self).drag_offer matches Some(o) ==> (on_drop matches Some(f) ==> (r matches Some(m)
                && f.ensures((o.x, o.y), m))),
    {
        match self.drag_offer.take() {
            Some(o) => {
                let (ox, oy) = (o.x, o.y);
                self.drag_offer = Some(DragOffer {
                    x: o.x,
                    y: o.y,
                    dropped: true,
                    selected_action: o.selected_action,
                    data: o.data,
                });
                match on_drop {
                    Some(f) => Some(f(ox, oy)),
                    None => None,
                }
            },
            None => None,
        }
    }

    /// An action is selected for the offer. A followed offer records it, and
    /// the handler, if any, is called with it.
    pub fn on_action_selected<M, F: Fn(DndAction) -> M>(
        &mut self,
        action: DndAction,
        on_action_selected: Option<F>,
    ) -> (r: Option<M>)
        requires
            on_action_selected matches Some(f) ==> f.requires((action,)),
        ensures
            *final(self) == old(self).after_action_selected(action),
            on_action_selected is None ==> r is None,
            on_action_selected matches Some(f) ==> (r matches Some(m) && f.ensures((action,), m)),
    {
        match self.drag_offer.take() {
            Some(o) => {
                self.drag_offer = Some(DragOffer {
                    x: o.x,
                    y: o.y,
                    dropped: o.dropped,
                    selected_action: action,
                    data: o.data,
                });
            },
            None => {},
        }
        match on_action_selected {
            Some(f) => Some(f(action)),
            None => None,
        }
    }

    /// Data of the offer arrives. After the drop, the finish handler, if any,
    /// receives the data, the selected action and the position, and the offer
    /// ends. Before the drop, the data handler, if any, receives the data.
    pub fn on_data_received<
        M,
        FD: Fn(String, Vec<u8>) -> M,
        FF: Fn(String, Vec<u8>, DndAction, C, C) -> M,
    >(
        &mut self,
        mime: String,
        data: Vec<u8>,
        on_data_received: Option<FD>,
        on_finish: Option<FF>,
    ) -> (r: (Option<M>, EventStatus))
        requires
            on_data_received matches Some(f) ==> f.requires((mime, data)),
            on_finish matches Some(f) ==> (old(self).drag_offer matches Some(o) ==> f.requires(
                (mime, data, o.selected_action, o.x, o.y),
            )),
        ensures
            *final(self) == old(self).after_data(),
            match old(self).data_outcome(on_data_received is Some) {
                DataOutcome::Finish(a, x, y) => {
                    &&& r.1 == EventStatus::Captured
                    &&& on_finish is None ==> r.0 is None
                    &&& on_finish matches Some(f) ==> (r.0 matches Some(m) && f.ensures((mime, data, a, x, y), m))
                },
                DataOutcome::Data => {
                    &&& r.1 == EventStatus::Captured
                    &&& on_data_received matches Some(f) && r.0 matches Some(m) && f.ensures((mime, data), m)
                },
                DataOutcome::Nothing => r.0 is None && r.1 == EventStatus::Ignored,
            },
    {
        match self.drag_offer.take() {
            None => (None, EventStatus::Ignored),
            Some(o) => {
                if o.dropped {
                    let m = match on_finish {
                        Some(f) => Some(f(mime, data, o.selected_action, o.x, o.y)),
                        None => None,
                    };
                    (m, EventStatus::Captured)
                } else {
                    self.drag_offer = Some(o);
                    match on_data_received {
                        Some(f) => (Some(f(mime, data)), EventStatus::Captured),
                        None => (None, EventStatus::Ignored),
                    }
                }
            },
        }
    }
}


/// Data that arrives after an offer entered, had an action selected and was
/// dropped finishes the offer with that action and the position where it
/// entered, and the destination then follows no offer.
pub proof fn lemma_finish_after_drop<T, C>(s: State<T, C>, x: C, y: C, data: T, action: DndAction, has_data_handler: bool)
    ensures
        s.after_enter(x, y, data).after_action_selected(action).after_drop().data_outcome(has_data_handler)
            == DataOutcome::Finish(action, x, y),
        s.after_enter(x, y, data).after_action_selected(action).after_drop().after_data().drag_offer is None,
{
}

/// Data that arrives before the drop goes to the data handler alone (or
/// nowhere without one), and the offer stays followed.
pub proof fn lemma_data_before_drop<T, C>(s: State<T, C>, x: C, y: C, data: T)
    ensures
        s.after_enter(x, y, data).data_outcome(true) == DataOutcome::<C>::Data,
        s.after_enter(x, y, data).data_outcome(false) == DataOutcome::<C>::Nothing,
        s.after_enter(x, y, data).after_data() == s.after_enter(x, y, data),
{
}

/// The finish handler is reached exactly when the followed offer was dropped.
pub proof fn lemma_finish_only_when_dropped<T, C>(s: State<T, C>, has_data_handler: bool)
    ensures
        (s.data_outcome(has_data_handler) is Finish) <==> (s.drag_offer matches Some(o) && o.dropped),
{
}

/// Leaving after the drop does not abandon the offer.
pub proof fn lemma_leave_after_drop_keeps_offer<T, C>(s: State<T, C>)
    requires
        s.drag_offer is Some,
    ensures
        !s.after_drop().leave_abandons(),
        s.after_drop().after_leave() == s.after_drop(),
{
}

/// Motion over a followed offer only moves it: whether it was dropped and
/// the selected action stay.
pub proof fn lemma_motion_keeps_offer_state<T, C>(s: State<T, C>, x: C, y: C, data: T)
    requires
        s.drag_offer is Some,
    ensures
        s.after_motion(x, y, data).drag_offer matches Some(o) && o.x == x && o.y == y
            && o.dropped == s.drag_offer->0.dropped
            && o.selected_action == s.drag_offer->0.selected_action,
{
}


/// The identity of a widget.
pub enum Id {
    /// An identity drawn from the process-wide counter.
    Unique(u64),
    /// An identity with a number and a name.
    Custom(u64, String),
    /// A group of identities.
    Group(Vec<Id>),
}

/// The identity of a drag-and-drop operation, kept apart from widget
/// identities by starting above the range of `u64`.
#[derive(Debug, Clone, Copy, PartialEq, Eq, Structural)]
pub struct DragId(pub u128);

/// The drag identity made from a value of the process-wide counter: above
/// the range of the widget identities, by the counter's value.
pub open spec fn drag_id_for(count: u64) -> u128 {
    (u64::MAX + count) as u128
}

impl DragId {
    /// The drag identity for the given value of the process-wide counter.
    pub fn from_counter(count: u64) -> (r: Self)
        ensures
            r.0 == drag_id_for(count),
            r.0 == u64::MAX + count,
    {
        DragId(u64::MAX as u128 + count as u128)
    }
}

/// Drag identities lie above every widget identity, and a later value of
/// the counter gives a larger identity, so no two values give the same one.
pub proof fn lemma_drag_ids_grow(a: u64, b: u64)
    requires
        a < b,
    ensures
        drag_id_for(a) >= u64::MAX,
        drag_id_for(b) > drag_id_for(a),
{
}

/// A drop destination: which offers it accepts and how it reports them.
pub struct DndDestination<E> {
    pub id: Id,
    pub drag_id: Option<u64>,
    pub preferred_action: DndAction,
    pub action: DndAction,
    pub container: E,
    pub mime_types: Vec<String>,
    pub forward_drag_as_cursor: bool,
}

/// Whether some offered type is accepted, an empty list of accepted types accepting any offer.
pub open spec fn accepts_offer(accepted: Seq<String>, offered: Seq<String>) -> bool {
    accepted.len() == 0 || exists|i: int, j: int|
        0 <= i < offered.len() && 0 <= j < accepted.len() && #[trigger] offered[i]@ == #[trigger] accepted[j]@
}

/// What a drop destination registers for the drags of its window.
pub struct DestinationRecord {
    pub id: u128,
    pub mime_types: Vec<String>,
    pub actions: DndAction,
    pub preferred: DndAction,
}

impl<E> DndDestination<E> {
    /// A destination with the given identity that accepts the given types,
    /// allows copy and move, and prefers move.
    pub fn with_id(child: E, id: Id, mimes: Vec<String>) -> (r: Self)
        ensures
            r.id == id,
            r.drag_id is None,
            r.mime_types == mimes,
            r.preferred_action.bits == 2,
            r.action.bits == 3,
            r.container == child,
            !r.forward_drag_as_cursor,
    {
        let action = DndAction::copy().union(DndAction::move_action());
        assert(1u32 | 2u32 == 3u32) by (bit_vector);
        DndDestination {
            id,
            drag_id: None,
            preferred_action: DndAction::move_action(),
            action,
            container: child,
            mime_types: mimes,
            forward_drag_as_cursor: false,
        }
    }

    /// Sets the drag identity.
    pub fn drag_id(self, id: u64) -> (r: Self)
        ensures
            r == (DndDestination { drag_id: Some(id), ..self }),
    {
        DndDestination { drag_id: Some(id), ..self }
    }

    /// Sets the allowed actions.
    pub fn action(self, action: DndAction) -> (r: Self)
        ensures
            r == (DndDestination { action, ..self }),
    {
        DndDestination { action, ..self }
    }

    /// Sets the preferred action.
    pub fn preferred_action(self, action: DndAction) -> (r: Self)
        ensures
            r == (DndDestination { preferred_action: action, ..self }),
    {
        DndDestination { preferred_action: action, ..self }
    }

    /// Sets whether the drag is forwarded to the child as cursor motion.
    pub fn forward_drag_as_cursor(self, forward: bool) -> (r: Self)
        ensures
            r == (DndDestination { forward_drag_as_cursor: forward, ..self }),
    {
        DndDestination { forward_drag_as_cursor: forward, ..self }
    }

    /// Sets the widget identity.
    pub fn id(self, id: Id) -> (r: Self)
        ensures
            r == (DndDestination { id, ..self }),
    {
        DndDestination { id, ..self }
    }

    /// The drag identity of the destination: the one that was set, else the
    /// number of its widget identity.
    pub open spec fn spec_drag_id(&self) -> u128 {
        match self.drag_id {
            Some(d) => d as u128,
            None => match self.id {
                Id::Unique(n) => n as u128,
                Id::Custom(n, _) => n as u128,
                Id::Group(_) => 0,
            },
        }
    }

    /// Returns the drag id of the destination. A destination whose widget
    /// identity is a group must have a drag identity.
    pub fn get_drag_id(&self) -> (r: u128)
        requires
            self.drag_id is None ==> !(self.id is Group),
        ensures
            r == self.spec_drag_id(),
    {
        match self.drag_id {
            Some(d) => d as u128,
            None => match &self.id {
                Id::Unique(n) => *n as u128,
                Id::Custom(n, _) => *n as u128,
                Id::Group(_) => 0,
            },
        }
    }

    /// What the destination registers for the drags of the window, beside
    /// its bounds: its drag identity, accepted types, allowed and preferred
    /// actions.
    pub fn registration(&self) -> (r: DestinationRecord)
        requires
            self.drag_id is None ==> !(self.id is Group),
        ensures
            r.id == self.spec_drag_id(),
            r.mime_types@.len() == self.mime_types@.len(),
            forall|i: int| 0 <= i < r.mime_types@.len() ==> #[trigger] r.mime_types@[i]@ == self.mime_types@[i]@,
            r.actions == self.action,
            r.preferred == self.preferred_action,
    {
        let mut mime_types: Vec<String> = Vec::new();
        let mut i: usize = 0;
        while i < self.mime_types.len()
            invariant
                0 <= i <= self.mime_types@.len(),
                mime_types@.len() == i,
                forall|k: int| 0 <= k < i ==> #[trigger] mime_types@[k]@ == self.mime_types@[k]@,
            decreases self.mime_types.len() - i,
        {
            mime_types.push(self.mime_types[i].clone());
            i += 1;
        }
        DestinationRecord { id: self.get_drag_id(), mime_types, actions: self.action, preferred: self.preferred_action }
    }

    /// Whether an offer of the given types is accepted.
    pub fn mime_matches(&self, offered: &Vec<String>) -> (r: bool)
        ensures
            r == accepts_offer(self.mime_types@, offered@),
    {
        if self.mime_types.len() == 0 {
            return true;
        }
        let mut i: usize = 0;
        while i < offered.len()
            invariant
                0 <= i <= offered.len(),
                self.mime_types@.len() > 0,
                forall|a: int, b: int|
                    0 <= a < i && 0 <= b < self.mime_types@.len() ==> offered@[a]@ != self.mime_types@[b]@,
            decreases offered.len() - i,
        {
            let mut j: usize = 0;
            while j < self.mime_types.len()
                invariant
                    0 <= i < offered.len(),
                    0 <= j <= self.mime_types.len(),
                    forall|b: int| 0 <= b < j ==> offered@[i as int]@ != self.mime_types@[b]@,
                decreases self.mime_types.len() - j,
            {
                if self.mime_types[j] == offered[i] {
                    assert(offered@[i as int]@ == self.mime_types@[j as int]@);
                    return true;
                }
                j += 1;
            }
            i += 1;
        }
        false
    }
}


/// A drag-and-drop offer event, addressed to the destination whose drag
/// identity it names.
pub enum OfferEvent<C> {
    Enter { x: C, y: C, mime_types: Vec<String> },
    Leave,
    Motion { x: C, y: C },
    LeaveDestination,
    Drop,
    SelectedAction(DndAction),
    Data { data: Vec<u8>, mime_type: String },
}

/// How the drag is to be passed on to the destination's child as a cursor.
pub enum CursorForward<C> {
    /// Nothing is passed on.
    Stay,
    /// The cursor moved to the given position.
    MovedTo(C, C),
    /// The cursor left.
    Left,
}

/// The handlers of a destination; each one is optional.
pub struct DndHandlers<FE, FL, FM, FD, FA, FR, FF> {
    pub on_enter: Option<FE>,
    pub on_leave: Option<FL>,
    pub on_motion: Option<FM>,
    pub on_drop: Option<FD>,
    pub on_action_selected: Option<FA>,
    pub on_data_received: Option<FR>,
    pub on_finish: Option<FF>,
}

/// The result of a handler with no argument, or no result without the handler.
pub open spec fn reply_unit<M, F: Fn() -> M>(h: Option<F>, r: Option<M>) -> bool {
    match h {
        None => r is None,
        Some(f) => r matches Some(m) && f.ensures((), m),
    }
}

/// The result of a position handler at `(x, y)`, or no result without the handler.
pub open spec fn reply_position<C, M, F: Fn(C, C) -> M>(h: Option<F>, x: C, y: C, r: Option<M>) -> bool {
    match h {
        None => r is None,
        Some(f) => r matches Some(m) && f.ensures((x, y), m),
    }
}

impl<E> DndDestination<E> {
    /// Whether an event naming `offer_id` is addressed to this destination.
    pub open spec fn is_addressed(&self, offer_id: Option<u128>) -> bool {
        offer_id == Some(self.spec_drag_id())
    }

    /// Reacts to a drag-and-drop offer event that the child did not capture:
    /// updates the offer state, returns the message of the handler that the
    /// event reaches, whether the event was captured, and what the child is
    /// to see as cursor motion.
    ///
    /// Enter, motion, drop, action selection and data count only when
    /// addressed to this destination; an entering offer must also offer an
    /// accepted type. Leaving counts whatever it names.
    pub fn on_offer<
        C: Copy,
        M,
        FE: Fn(C, C, Vec<String>) -> M,
        FL: Fn() -> M,
        FM: Fn(C, C) -> M,
        FD: Fn(C, C) -> M,
        FA: Fn(DndAction) -> M,
        FR: Fn(String, Vec<u8>) -> M,
        FF: Fn(String, Vec<u8>, DndAction, C, C) -> M,
    >(
        &self,
        state: &mut State<(), C>,
        offer_id: Option<u128>,
        event: OfferEvent<C>,
        handlers: DndHandlers<FE, FL, FM, FD, FA, FR, FF>,
    ) -> (r: (Option<M>, EventStatus, CursorForward<C>))
        requires
            self.drag_id is None ==> !(self.id is Group),
            handlers.on_enter matches Some(f) ==> forall|x: C, y: C, v: Vec<String>| #[trigger] f.requires((x, y, v)),
            handlers.on_leave matches Some(f) ==> f.requires(()),
            handlers.on_motion matches Some(f) ==> forall|x: C, y: C| #[trigger] f.requires((x, y)),
            handlers.on_drop matches Some(f) ==> forall|x: C, y: C| #[trigger] f.requires((x, y)),
            handlers.on_action_selected matches Some(f) ==> forall|a: DndAction| #[trigger] f.requires((a,)),
            handlers.on_data_received matches Some(f) ==> forall|m: String, d: Vec<u8>| #[trigger] f.requires((m, d)),
            handlers.on_finish matches Some(f) ==> forall|m: String, d: Vec<u8>, a: DndAction, x: C, y: C|
                #[trigger] f.requires((m, d, a, x, y)),
        ensures
            match event {
                OfferEvent::Enter { x, y, mime_types } => if self.is_addressed(offer_id) && accepts_offer(self.mime_types@, mime_types@) {
                    &&& *final(state) == old(state).after_enter(x, y, ())
                    &&& r.1 == EventStatus::Captured
                    &&& r.2 == (if self.forward_drag_as_cursor { CursorForward::MovedTo(x, y) } else { CursorForward::Stay })
                    &&& handlers.on_enter is None ==> r.0 is None
                    &&& handlers.on_enter matches Some(f) ==> (r.0 matches Some(m) && f.ensures((x, y, mime_types), m))
                } else {
                    *final(state) == *old(state) && r.0 is None && r.1 == EventStatus::Ignored && r.2 == CursorForward::<C>::Stay
                },
                OfferEvent::Leave => {
                    &&& *final(state) == old(state).after_leave()
                    &&& r.1 == EventStatus::Ignored
                    &&& r.2 == (if self.forward_drag_as_cursor { CursorForward::<C>::Left } else { CursorForward::Stay })
                    &&& if old(state).leave_abandons() { reply_unit(handlers.on_leave, r.0) } else { r.0 is None }
                },
                OfferEvent::Motion { x, y } => if self.is_addressed(offer_id) {
                    &&& *final(state) == old(state).after_motion(x, y, ())
                    &&& r.1 == EventStatus::Captured
                    &&& r.2 == (if self.forward_drag_as_cursor { CursorForward::MovedTo(x, y) } else { CursorForward::Stay })
                    &&& if old(state).drag_offer is None && handlers.on_enter is Some {
                        handlers.on_enter matches Some(f) && r.0 matches Some(m) && entered_without_types(f, x, y, m)
                    } else {
                        reply_position(handlers.on_motion, x, y, r.0)
                    }
                } else {
                    *final(state) == *old(state) && r.0 is None && r.1 == EventStatus::Ignored && r.2 == CursorForward::<C>::Stay
                },
                OfferEvent::LeaveDestination => {
                    &&& *final(state) == old(state).after_leave()
                    &&& r.1 == EventStatus::Ignored
                    &&& r.2 == CursorForward::<C>::Stay
                    &&& if old(state).leave_abandons() { reply_unit(handlers.on_leave, r.0) } else { r.0 is None }
                },
                OfferEvent::Drop => if self.is_addressed(offer_id) {
                    &&& *final(state) == old(state).after_drop()
                    &&& r.1 == EventStatus::Captured
                    &&& r.2 == CursorForward::<C>::Stay
                    &&& match old(state).drag_offer {
                        Some(o) => reply_position(handlers.on_drop, o.x, o.y, r.0),
                        None => r.0 is None,
                    }
                } else {
                    *final(state) == *old(state) && r.0 is None && r.1 == EventStatus::Ignored && r.2 == CursorForward::<C>::Stay
                },
                OfferEvent::SelectedAction(a) => if self.is_addressed(offer_id) {
                    &&& *final(state) == old(state).after_action_selected(a)
                    &&& r.1 == EventStatus::Captured
                    &&& r.2 == CursorForward::<C>::Stay
                    &&& handlers.on_action_selected is None ==> r.0 is None
                    &&& handlers.on_action_selected matches Some(f) ==> (r.0 matches Some(m) && f.ensures((a,), m))
                } else {
                    *final(state) == *old(state) && r.0 is None && r.1 == EventStatus::Ignored && r.2 == CursorForward::<C>::Stay
                },
                OfferEvent::Data { data, mime_type } => if self.is_addressed(offer_id) {
                    &&& *final(state) == old(state).after_data()
                    &&& r.1 == EventStatus::Captured
                    &&& r.2 == CursorForward::<C>::Stay
                    &&& match old(state).data_outcome(handlers.on_data_received is Some) {
                        DataOutcome::Finish(a, x, y) => {
                            &&& handlers.on_finish is None ==> r.0 is None
                            &&& handlers.on_finish matches Some(f) ==> (r.0 matches Some(m) && f.ensures((mime_type, data, a, x, y), m))
                        },
                        DataOutcome::Data => handlers.on_data_received matches Some(f) && r.0 matches Some(m)
                            && f.ensures((mime_type, data), m),
                        DataOutcome::Nothing => r.0 is None,
                    }
                } else {
                    *final(state) == *old(state) && r.0 is None && r.1 == EventStatus::Ignored && r.2 == CursorForward::<C>::Stay
                },
            },
    {
        let my_id = self.get_drag_id();
        let addressed = match offer_id {
            Some(id) => id == my_id,
            None => false,
        };
        match event {
            OfferEvent::Enter { x, y, mime_types } => {
                if !addressed || !self.mime_matches(&mime_types) {
                    return (None, EventStatus::Ignored, CursorForward::Stay);
                }
                let m = state.on_enter(x, y, mime_types, handlers.on_enter, ());
                let forward = if self.forward_drag_as_cursor {
                    CursorForward::MovedTo(x, y)
                } else {
                    CursorForward::Stay
                };
                (m, EventStatus::Captured, forward)
            },
            OfferEvent::Leave => {
                let m = state.on_leave(handlers.on_leave);
                let forward = if self.forward_drag_as_cursor {
                    CursorForward::Left
                } else {
                    CursorForward::Stay
                };
                (m, EventStatus::Ignored, forward)
            },
            OfferEvent::Motion { x, y } => {
                if !addressed {
                    return (None, EventStatus::Ignored, CursorForward::Stay);
                }
                let m = state.on_motion(x, y, handlers.on_motion, handlers.on_enter, ());
                let forward = if self.forward_drag_as_cursor {
                    CursorForward::MovedTo(x, y)
                } else {
                    CursorForward::Stay
                };
                (m, EventStatus::Captured, forward)
            },
            OfferEvent::LeaveDestination => {
                let m = state.on_leave(handlers.on_leave);
                (m, EventStatus::Ignored, CursorForward::Stay)
            },
            OfferEvent::Drop => {
                if !addressed {
                    return (None, EventStatus::Ignored, CursorForward::Stay);
                }
                let m = state.on_drop(handlers.on_drop);
                (m, EventStatus::Captured, CursorForward::Stay)
            },
            OfferEvent::SelectedAction(action) => {
                if !addressed {
                    return (None, EventStatus::Ignored, CursorForward::Stay);
                }
                let m = state.on_action_selected(action, handlers.on_action_selected);
                (m, EventStatus::Captured, CursorForward::Stay)
            },
            OfferEvent::Data { data, mime_type } => {
                if !addressed {
                    return (None, EventStatus::Ignored, CursorForward::Stay);
                }
                let (m, status) = state.on_data_received(
                    mime_type,
                    data,
                    handlers.on_data_received,
                    handlers.on_finish,
                );
                match m {
                    Some(msg) => (Some(msg), status, CursorForward::Stay),
                    None => (None, EventStatus::Captured, CursorForward::Stay),
                }
            },
        }
    }
}

} // verus!
