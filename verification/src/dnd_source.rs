//! A drag source: a widget that starts a drag-and-drop operation once the
//! pointer, pressed on it, has moved far enough.

use vstd::prelude::*;
use crate::dnd_destination::{DndAction, EventStatus, Id};

verus! {

/// A drag source around a child `E`, producing messages `M`. `F` makes the
/// content of a drag; without it no drag starts. `W` identifies a window.
pub struct DndSource<E, M, F, W> {
    pub id: Id,
    pub action: DndAction,
    pub container: E,
    pub window: Option<W>,
    pub drag_content: Option<F>,
    pub on_start: Option<M>,
    pub on_cancelled: Option<M>,
    pub on_finish: Option<M>,
}

/// The pointer state of a drag source, positions being of type `P`.
pub struct SourceState<P> {
    pub hovered: bool,
    /// Where the left button was pressed, while a drag may still start.
    pub left_pressed_position: Option<P>,
    pub is_dragging: bool,
}

/// An event as the drag source sees it.
pub enum SourceEvent<P> {
    /// The left button was pressed; `position` is the cursor's, when available.
    LeftPressed { position: Option<P> },
    /// The left button was released.
    LeftReleased,
    /// The cursor moved. `position` is the cursor's, when available; `over`
    /// tells whether it is over the source; `past_threshold` whether it is
    /// farther than the drag threshold from where the button was pressed.
    CursorMoved { position: Option<P>, over: bool, past_threshold: bool },
    /// The drag that the source started was cancelled.
    Cancelled,
    /// The drag that the source started finished.
    Finished,
    /// Any other event.
    Other,
}

/// What the drag source does with an event.
pub struct SourceOutcome<M, P> {
    pub status: EventStatus,
    pub message: Option<M>,
    /// A drag to start, from where the button was pressed.
    pub start_drag_from: Option<P>,
}

impl<P> SourceState<P> {
    /// Not hovered, not pressed, not dragging.
    pub fn new() -> (r: Self)
        ensures
            !r.hovered,
            r.left_pressed_position is None,
            !r.is_dragging,
    {
        SourceState { hovered: false, left_pressed_position: None, is_dragging: false }
    }
}

/// The message `m` as a clone of `o`, or none without `o`.
pub open spec fn cloned_message<M: Clone>(o: Option<M>, m: Option<M>) -> bool {
    match o {
        None => m is None,
        Some(a) => m matches Some(b) && cloned(a, b),
    }
}

fn clone_message<M: Clone>(o: &Option<M>) -> (r: Option<M>)
    ensures
        cloned_message(*o, r),
{
    match o {
        Some(m) => Some(m.clone()),
        None => None,
    }
}

impl<E, M: Clone, F, W> DndSource<E, M, F, W> {
    /// A source with the given identity that allows copy and move, with no
    /// window, content or messages.
    pub fn with_id(child: E, id: Id) -> (r: Self)
        ensures
            r.id == id,
            r.action.bits == 3,
            r.container == child,
            r.window is None,
            r.drag_content is None,
            r.on_start is None && r.on_cancelled is None && r.on_finish is None,
    {
        assert(1u32 | 2u32 == 3u32) by (bit_vector);
        DndSource {
            id,
            action: DndAction::copy().union(DndAction::move_action()),
            container: child,
            window: None,
            drag_content: None,
            on_start: None,
            on_cancelled: None,
            on_finish: None,
        }
    }

    /// Sets the allowed actions.
    pub fn action(self, action: DndAction) -> (r: Self)
        ensures
            r == (DndSource { action, ..self }),
    {
        DndSource { action, ..self }
    }

    /// Sets what makes the content of a drag.
    pub fn drag_content(self, f: F) -> (r: Self)
        ensures
            r == (DndSource { drag_content: Some(f), ..self }),
    {
        DndSource { drag_content: Some(f), ..self }
    }

    /// Sets the message of a drag's start.
    pub fn on_start(self, on_start: Option<M>) -> (r: Self)
        ensures
            r == (DndSource { on_start, ..self }),
    {
        DndSource { on_start, ..self }
    }

    /// Sets the message of a drag's cancellation.
    pub fn on_cancel(self, on_cancelled: Option<M>) -> (r: Self)
        ensures
            r == (DndSource { on_cancelled, ..self }),
    {
        DndSource { on_cancelled, ..self }
    }

    /// Sets the message of a drag's end.
    pub fn on_finish(self, on_finish: Option<M>) -> (r: Self)
        ensures
            r == (DndSource { on_finish, ..self }),
    {
        DndSource { on_finish, ..self }
    }

    /// Sets the window that drags start from.
    pub fn window(self, window: W) -> (r: Self)
        ensures
            r == (DndSource { window: Some(window), ..self }),
    {
        DndSource { window: Some(window), ..self }
    }

    /// Handles an event that the child answered with `child_status`.
    ///
    /// A press over the hovered source records where it happened; a release
    /// forgets it. Moving the hovered source's cursor past the threshold
    /// starts a drag from there, with the start message; a source without
    /// content forgets the press instead. Leaving the source unhovers it,
    /// entering it hovers it. The cancellation or end of the source's drag
    /// reports its message. Events that the source does not take keep the
    /// child's answer.
    pub fn on_event<P: Copy>(&self, state: &mut SourceState<P>, event: SourceEvent<P>, child_status: EventStatus) -> (r: SourceOutcome<M, P>)
        ensures
            match event {
                SourceEvent::LeftPressed { position } => match position {
                    Some(p) => if old(state).hovered {
                        *final(state) == (SourceState { left_pressed_position: Some(p), ..*old(state) })
                            && r.status == EventStatus::Captured && r.message is None && r.start_drag_from is None
                    } else {
                        *final(state) == *old(state) && r.status == child_status && r.message is None && r.start_drag_from is None
                    },
                    None => *final(state) == *old(state) && r.status == child_status && r.message is None && r.start_drag_from is None,
                },
                SourceEvent::LeftReleased => if old(state).left_pressed_position is Some {
                    *final(state) == (SourceState { left_pressed_position: None, ..*old(state) })
                        && r.status == EventStatus::Captured && r.message is None && r.start_drag_from is None
                } else {
                    *final(state) == *old(state) && r.status == child_status && r.message is None && r.start_drag_from is None
                },
                SourceEvent::CursorMoved { position, over, past_threshold } => match position {
                    None => *final(state) == *old(state) && r.status == child_status && r.message is None && r.start_drag_from is None,
                    Some(_) => if old(state).hovered {
                        if self.drag_content is None {
                            *final(state) == (SourceState { left_pressed_position: None, ..*old(state) })
                                && r.status == child_status && r.message is None && r.start_drag_from is None
                        } else {
                            let starts = old(state).left_pressed_position is Some && past_threshold;
                            &&& final(state).hovered == over
                            &&& final(state).is_dragging == (old(state).is_dragging || starts)
                            &&& final(state).left_pressed_position == (if starts { None } else { old(state).left_pressed_position })
                            &&& r.start_drag_from == (if starts { old(state).left_pressed_position } else { None })
                            &&& if starts { cloned_message(self.on_start, r.message) } else { r.message is None }
                            &&& r.status == (if over { EventStatus::Captured } else { child_status })
                        }
                    } else {
                        *final(state) == (SourceState { hovered: over, ..*old(state) })
                            && r.status == EventStatus::Captured && r.message is None && r.start_drag_from is None
                    },
                },
                SourceEvent::Cancelled => if old(state).is_dragging {
                    *final(state) == (SourceState { is_dragging: false, ..*old(state) })
                        && r.status == EventStatus::Captured && cloned_message(self.on_cancelled, r.message) && r.start_drag_from is None
                } else {
                    *final(state) == *old(state) && r.status == child_status && r.message is None && r.start_drag_from is None
                },
                SourceEvent::Finished => if old(state).is_dragging {
                    *final(state) == (SourceState { is_dragging: false, ..*old(state) })
                        && r.status == EventStatus::Captured && cloned_message(self.on_finish, r.message) && r.start_drag_from is None
                } else {
                    *final(state) == *old(state) && r.status == child_status && r.message is None && r.start_drag_from is None
                },
                SourceEvent::Other => *final(state) == *old(state) && r.status == child_status && r.message is None
                    && r.start_drag_from is None,
            },
    {
        let unchanged = SourceOutcome { status: child_status, message: None, start_drag_from: None };
        match event {
            SourceEvent::LeftPressed { position } => match position {
                Some(p) => {
                    if !state.hovered {
                        return unchanged;
                    }
                    state.left_pressed_position = Some(p);
                    SourceOutcome { status: EventStatus::Captured, message: None, start_drag_from: None }
                },
                None => unchanged,
            },
            SourceEvent::LeftReleased => {
                if state.left_pressed_position.is_some() {
                    state.left_pressed_position = None;
                    SourceOutcome { status: EventStatus::Captured, message: None, start_drag_from: None }
                } else {
                    unchanged
                }
            },
            SourceEvent::CursorMoved { position, over, past_threshold } => match position {
                None => unchanged,
                Some(_) => {
                    if state.hovered {
                        if self.drag_content.is_none() {
                            state.left_pressed_position = None;
                            return unchanged;
                        }
                        let mut message: Option<M> = None;
                        let mut start_drag_from: Option<P> = None;
                        match state.left_pressed_position {
                            Some(pressed) => {
                                if past_threshold {
                                    message = clone_message(&self.on_start);
                                    start_drag_from = Some(pressed);
                                    state.is_dragging = true;
                                    state.left_pressed_position = None;
                                }
                            },
                            None => {},
                        }
                        if !over {
                            state.hovered = false;
                            return SourceOutcome { status: child_status, message, start_drag_from };
                        }
                        SourceOutcome { status: EventStatus::Captured, message, start_drag_from }
                    } else {
                        if over {
                            state.hovered = true;
                        }
                        SourceOutcome { status: EventStatus::Captured, message: None, start_drag_from: None }
                    }
                },
            },
            SourceEvent::Cancelled => {
                if state.is_dragging {
                    let message = clone_message(&self.on_cancelled);
                    state.is_dragging = false;
                    SourceOutcome { status: EventStatus::Captured, message, start_drag_from: None }
                } else {
                    unchanged
                }
            },
            SourceEvent::Finished => {
                if state.is_dragging {
                    let message = clone_message(&self.on_finish);
                    state.is_dragging = false;
                    SourceOutcome { status: EventStatus::Captured, message, start_drag_from: None }
                } else {
                    unchanged
                }
            },
            SourceEvent::Other => unchanged,
        }
    }
}

/// Whether the pointer shows the grabbing cursor: while the source drags.
pub fn is_grabbing<P>(state: &SourceState<P>) -> (r: bool)
    ensures
        r == state.is_dragging,
{
    state.is_dragging
}


/// Where a drag starts from: a window, or the source widget itself.
pub enum DragOrigin<'a, W> {
    Surface(W),
    Widget(&'a Id),
}

/// A drag to start: where from, what it carries, and the actions it allows.
pub struct DragRequest<'a, W, D> {
    pub origin: DragOrigin<'a, W>,
    pub content: D,
    pub actions: DndAction,
}

impl<E, M, F, W: Copy> DndSource<E, M, F, W> {
    /// The drag that the source starts: none without content to carry;
    /// else from its window when it has one, else from itself, carrying
    /// the content that `drag_content` makes.
    pub fn start_dnd<D>(&self) -> (r: Option<DragRequest<'_, W, D>>)
        where
            F: Fn() -> D,
        requires
            self.drag_content matches Some(f) ==> f.requires(()),
        ensures
            match self.drag_content {
                None => r is None,
                Some(f) => r matches Some(q) && f.ensures((), q.content) && q.actions == self.action
                    && q.origin == (match self.window {
                        Some(w) => DragOrigin::Surface(w),
                        None => DragOrigin::<'_, W>::Widget(&self.id),
                    }),
            },
    {
        let content = match &self.drag_content {
            Some(f) => f(),
            None => return None,
        };
        let origin = match self.window {
            Some(w) => DragOrigin::Surface(w),
            None => DragOrigin::Widget(&self.id),
        };
        Some(DragRequest { origin, content, actions: self.action })
    }
}

} // verus!
