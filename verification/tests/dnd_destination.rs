use cosmic_widgets::dnd_destination::{
    CursorForward, DndAction, DndDestination, DndHandlers, DragId, EventStatus, Id, OfferEvent, State,
};

#[derive(Clone, Copy, Debug, PartialEq)]
enum TestMsg {
    Data,
    Finished,
}

#[test]
fn data_before_drop_invokes_data_handler_only() {
    let mut state: State<(), f64> = State::new();
    assert!(state.drag_offer.is_none());
    state.on_enter::<TestMsg, fn(f64, f64, Vec<String>) -> TestMsg>(
        4.0,
        2.0,
        vec!["text/plain".into()],
        None,
        (),
    );
    let (message, status) = state.on_data_received(
        "text/plain".into(),
        vec![1],
        Some(|mime: String, data: Vec<u8>| {
            assert_eq!(mime, "text/plain");
            assert_eq!(data, vec![1]);
            TestMsg::Data
        }),
        Option::<fn(String, Vec<u8>, DndAction, f64, f64) -> TestMsg>::None,
    );
    assert!(matches!(message, Some(TestMsg::Data)));
    assert_eq!(status, EventStatus::Captured);
    assert!(state.drag_offer.is_some());
}

#[test]
fn finish_only_emits_after_drop() {
    let mut state: State<(), f64> = State::new();
    state.on_enter::<TestMsg, fn(f64, f64, Vec<String>) -> TestMsg>(5.0, -1.0, vec![], None, ());
    state.on_action_selected::<TestMsg, fn(DndAction) -> TestMsg>(DndAction::move_action(), None);
    state.on_drop::<TestMsg, fn(f64, f64) -> TestMsg>(None);

    let (message, status) = state.on_data_received(
        "application/x-test".into(),
        vec![7],
        Option::<fn(String, Vec<u8>) -> TestMsg>::None,
        Some(|mime: String, data: Vec<u8>, action: DndAction, x: f64, y: f64| {
            assert_eq!(mime, "application/x-test");
            assert_eq!(data, vec![7]);
            assert_eq!(action, DndAction::move_action());
            assert_eq!(x, 5.0);
            assert_eq!(y, -1.0);
            TestMsg::Finished
        }),
    );
    assert!(matches!(message, Some(TestMsg::Finished)));
    assert_eq!(status, EventStatus::Captured);
    assert!(state.drag_offer.is_none());
}

#[test]
fn leave_after_drop_keeps_offer() {
    let mut state: State<(), i32> = State::new();
    state.on_enter::<u8, fn(i32, i32, Vec<String>) -> u8>(1, 2, vec![], None, ());
    state.on_drop::<u8, fn(i32, i32) -> u8>(None);
    let left = state.on_leave(Some(|| 9u8));
    assert_eq!(left, None);
    assert!(state.drag_offer.is_some());
    assert!(state.drag_offer.as_ref().unwrap().dropped);
}

#[test]
fn leave_before_drop_abandons_offer() {
    let mut state: State<(), i32> = State::new();
    state.on_enter::<u8, fn(i32, i32, Vec<String>) -> u8>(1, 2, vec![], None, ());
    let left = state.on_leave(Some(|| 9u8));
    assert_eq!(left, Some(9));
    assert!(state.drag_offer.is_none());
}

#[test]
fn motion_without_offer_enters_with_no_types() {
    let mut state: State<(), i32> = State::new();
    let m = state.on_motion(
        3,
        4,
        Some(|x: i32, y: i32| format!("motion {x} {y}")),
        Some(|x: i32, y: i32, types: Vec<String>| format!("enter {x} {y} {}", types.len())),
        (),
    );
    assert_eq!(m, Some("enter 3 4 0".to_string()));
    let m = state.on_motion(
        5,
        6,
        Some(|x: i32, y: i32| format!("motion {x} {y}")),
        Some(|x: i32, y: i32, types: Vec<String>| format!("enter {x} {y} {}", types.len())),
        (),
    );
    assert_eq!(m, Some("motion 5 6".to_string()));
    let offer = state.drag_offer.as_ref().unwrap();
    assert_eq!((offer.x, offer.y), (5, 6));
}

#[test]
fn data_without_offer_is_ignored() {
    let mut state: State<(), i32> = State::new();
    let (m, status) = state.on_data_received(
        "text/plain".into(),
        vec![],
        Some(|_m: String, _d: Vec<u8>| 1u8),
        Some(|_m: String, _d: Vec<u8>, _a: DndAction, _x: i32, _y: i32| 2u8),
    );
    assert_eq!(m, None);
    assert_eq!(status, EventStatus::Ignored);
    assert!(state.drag_offer.is_none());
}

#[test]
fn actions_combine_as_bits() {
    let both = DndAction::copy().union(DndAction::move_action());
    assert_eq!(both.bits, 3);
    assert!(both.contains(DndAction::move_action()));
    assert!(!both.contains(DndAction::ask()));
    assert_eq!(DndAction::empty().bits, 0);
}

#[test]
fn drag_id_starts_above_u64() {
    assert_eq!(DragId::from_counter(0).0, u64::MAX as u128);
    assert_eq!(DragId::from_counter(5).0, u64::MAX as u128 + 5);
}

fn no_handlers() -> DndHandlers<
    fn(f64, f64, Vec<String>) -> String,
    fn() -> String,
    fn(f64, f64) -> String,
    fn(f64, f64) -> String,
    fn(DndAction) -> String,
    fn(String, Vec<u8>) -> String,
    fn(String, Vec<u8>, DndAction, f64, f64) -> String,
> {
    DndHandlers {
        on_enter: None,
        on_leave: None,
        on_motion: None,
        on_drop: None,
        on_action_selected: None,
        on_data_received: None,
        on_finish: None,
    }
}

fn enter_handler(x: f64, y: f64, types: Vec<String>) -> String {
    format!("enter {x} {y} {}", types.join(","))
}

#[test]
fn destination_routes_offer_events() {
    let dest = DndDestination::with_id((), Id::Unique(7), vec!["text/plain".to_string()]).forward_drag_as_cursor(true);
    assert_eq!(dest.get_drag_id(), 7);
    let mut state: State<(), f64> = State::new();

    let mut handlers = no_handlers();
    handlers.on_enter = Some(enter_handler as fn(f64, f64, Vec<String>) -> String);
    let (m, status, forward) = dest.on_offer(
        &mut state,
        Some(7),
        OfferEvent::Enter { x: 1.0, y: 2.0, mime_types: vec!["image/png".to_string()] },
        handlers,
    );
    assert_eq!(m, None);
    assert_eq!(status, EventStatus::Ignored);
    assert!(matches!(forward, CursorForward::Stay));
    assert!(state.drag_offer.is_none());

    let mut handlers = no_handlers();
    handlers.on_enter = Some(enter_handler as fn(f64, f64, Vec<String>) -> String);
    let (m, status, forward) = dest.on_offer(
        &mut state,
        Some(7),
        OfferEvent::Enter { x: 1.0, y: 2.0, mime_types: vec!["image/png".to_string(), "text/plain".to_string()] },
        handlers,
    );
    assert_eq!(m, Some("enter 1 2 image/png,text/plain".to_string()));
    assert_eq!(status, EventStatus::Captured);
    assert!(matches!(forward, CursorForward::MovedTo(x, y) if x == 1.0 && y == 2.0));

    let (m, status, _) = dest.on_offer(&mut state, Some(8), OfferEvent::Drop, no_handlers());
    assert_eq!((m, status), (None, EventStatus::Ignored));
    assert!(!state.drag_offer.as_ref().unwrap().dropped);

    let (_, status, _) = dest.on_offer(&mut state, Some(7), OfferEvent::Drop, no_handlers());
    assert_eq!(status, EventStatus::Captured);
    assert!(state.drag_offer.as_ref().unwrap().dropped);

    let mut handlers = no_handlers();
    handlers.on_finish = Some(|m: String, d: Vec<u8>, a: DndAction, x: f64, y: f64| format!("{m} {} {} {x} {y}", d.len(), a.bits));
    let (m, status, _) = dest.on_offer(
        &mut state,
        Some(7),
        OfferEvent::Data { data: vec![1, 2, 3], mime_type: "text/plain".to_string() },
        handlers,
    );
    assert_eq!(m, Some("text/plain 3 0 1 2".to_string()));
    assert_eq!(status, EventStatus::Captured);
    assert!(state.drag_offer.is_none());
}

#[test]
fn mime_matching_accepts_any_when_empty() {
    let any = DndDestination::with_id((), Id::Unique(1), vec![]);
    assert!(any.mime_matches(&vec!["x/y".to_string()]));
    assert!(any.mime_matches(&vec![]));
    let some = DndDestination::with_id((), Id::Custom(2, "n".to_string()), vec!["a/b".to_string()]);
    assert!(!some.mime_matches(&vec![]));
    assert!(!some.mime_matches(&vec!["x/y".to_string()]));
    assert!(some.mime_matches(&vec!["x/y".to_string(), "a/b".to_string()]));
    assert_eq!(some.get_drag_id(), 2);
    assert_eq!(some.drag_id(42).get_drag_id(), 42);
}

#[test]
fn registration_carries_identity_types_and_actions() {
    let d = DndDestination::with_id((), Id::Custom(9, "n".to_string()), vec!["a/b".to_string(), "c/d".to_string()]);
    let r = d.registration();
    assert_eq!(r.id, 9);
    assert_eq!(r.mime_types, vec!["a/b".to_string(), "c/d".to_string()]);
    assert_eq!(r.actions, d.action);
    assert_eq!(r.preferred, d.preferred_action);
}

#[test]
fn drag_ids_grow_above_widget_ids() {
    let a = DragId::from_counter(0);
    let b = DragId::from_counter(5);
    assert_eq!(a.0, u64::MAX as u128);
    assert!(b.0 > a.0);
}
