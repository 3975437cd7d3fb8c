use cosmic_widgets::dnd_destination::EventStatus;
use cosmic_widgets::dropdown::{update as single_update, PopupRequest, State as SingleState};
use cosmic_widgets::dropdown_multi::{list, list_on_event, model, option_style, OptionStyle, update, DropdownEvent, DropdownState, ListEvent, OptionElement};

fn sample() -> cosmic_widgets::dropdown_multi::Model<&'static str, u32> {
    let mut m = model();
    m.insert(list(Some("List A"), vec![("Option 1", 1), ("Option 2", 2), ("Option 3", 3)]));
    m.insert(list(None, vec![("Option 4", 4), ("Option 5", 5)]));
    m
}

#[test]
fn get_finds_label_across_lists() {
    let m = sample();
    assert_eq!(m.get(&2), Some(&"Option 2"));
    assert_eq!(m.get(&5), Some(&"Option 5"));
    assert_eq!(m.get(&9), None);
}

#[test]
fn next_crosses_list_boundaries() {
    let mut m = sample();
    assert!(m.next().is_none());
    m.selected = Some(3);
    assert_eq!(m.next(), Some(&("Option 4", 4)));
    m.selected = Some(1);
    assert_eq!(m.next(), Some(&("Option 2", 2)));
    m.selected = Some(5);
    assert_eq!(m.next(), None);
    m.selected = Some(42);
    assert_eq!(m.next(), None);
}

#[test]
fn elements_have_descriptions_and_separators() {
    let m = sample();
    let e = m.elements();
    assert_eq!(e.len(), 8);
    assert!(matches!(e[0], OptionElement::Description(&"List A")));
    assert!(matches!(e[1], OptionElement::Option(&("Option 1", 1))));
    assert!(matches!(e[3], OptionElement::Option(&("Option 3", 3))));
    assert!(matches!(e[4], OptionElement::Separator));
    assert!(matches!(e[5], OptionElement::Option(&("Option 4", 4))));
    assert!(matches!(e[7], OptionElement::Separator));
}

#[test]
fn clear_removes_lists_keeps_selection() {
    let mut m = sample();
    m.selected = Some(2);
    m.clear();
    assert!(m.lists.is_empty());
    assert_eq!(m.selected, Some(2));
    assert!(m.elements().is_empty());
    assert_eq!(m.get(&2), None);
}

#[test]
fn multi_update_press_opens_and_closes() {
    let mut m = sample();
    m.selected = Some(4);
    let mut state: DropdownState<u32> = DropdownState::new();
    let (msg, status) = update(DropdownEvent::Press { over: false }, |i: u32| i, &m, &mut state);
    assert_eq!((msg, status), (None, EventStatus::Ignored));
    assert!(!state.is_open);
    let (msg, status) = update(DropdownEvent::Press { over: true }, |i: u32| i, &m, &mut state);
    assert_eq!((msg, status), (None, EventStatus::Captured));
    assert!(state.is_open);
    assert_eq!(state.hovered_option, Some(4));
    let (_, status) = update(DropdownEvent::Press { over: false }, |i: u32| i, &m, &mut state);
    assert_eq!(status, EventStatus::Captured);
    assert!(!state.is_open);
}

#[test]
fn multi_update_scroll_with_command_selects_next() {
    let mut m = sample();
    m.selected = Some(3);
    let mut state: DropdownState<u32> = DropdownState::new();
    let (msg, status) = update(DropdownEvent::ScrollLines { over: true }, |i: u32| i * 10, &m, &mut state);
    assert_eq!((msg, status), (None, EventStatus::Ignored));
    update(DropdownEvent::ModifiersChanged { command: true }, |i: u32| i * 10, &m, &mut state);
    assert!(state.command_pressed);
    let (msg, status) = update(DropdownEvent::ScrollLines { over: true }, |i: u32| i * 10, &m, &mut state);
    assert_eq!((msg, status), (Some(40), EventStatus::Captured));
    m.selected = Some(5);
    let (msg, status) = update(DropdownEvent::ScrollLines { over: true }, |i: u32| i * 10, &m, &mut state);
    assert_eq!((msg, status), (None, EventStatus::Captured));
}

#[test]
fn single_update_carries_out_pending_requests() {
    let mut state = SingleState::new();
    state.open();
    let out = single_update(DropdownEvent::Other, Some(1), 3, &mut state);
    assert_eq!(out.requests, vec![PopupRequest::Open]);
    assert!(state.is_open);
    assert_eq!(state.hovered_option, Some(1));
    assert!(!state.open_operation);

    state.close();
    state.open();
    let out = single_update(DropdownEvent::Other, Some(2), 3, &mut state);
    assert_eq!(out.requests, vec![PopupRequest::Destroy, PopupRequest::Open]);
    assert!(state.is_open);

    state.close();
    let out = single_update(DropdownEvent::Other, None, 3, &mut state);
    assert_eq!(out.requests, vec![PopupRequest::Destroy]);
    assert!(!state.is_open);
}

#[test]
fn single_update_press_and_scroll() {
    let mut state = SingleState::new();
    let out = single_update(DropdownEvent::Press { over: true }, Some(0), 3, &mut state);
    assert_eq!(out.requests, vec![PopupRequest::Open]);
    assert_eq!(out.status, EventStatus::Captured);
    let out = single_update(DropdownEvent::Press { over: true }, Some(0), 3, &mut state);
    assert_eq!(out.requests, vec![PopupRequest::Destroy]);
    assert!(!state.is_open);

    single_update(DropdownEvent::ModifiersChanged { command: true }, Some(0), 3, &mut state);
    let out = single_update(DropdownEvent::ScrollLines { over: true }, Some(0), 3, &mut state);
    assert_eq!(out.selected, None);
    assert_eq!(out.status, EventStatus::Captured);
    let out = single_update(DropdownEvent::ScrollLines { over: true }, Some(4), 3, &mut state);
    assert_eq!(out.selected, Some(5));
}

#[test]
fn list_hovers_option_under_cursor_and_reports_new_ones() {
    let m = sample();
    let mut hovered: Option<u32> = None;
    let hover = |i: u32| i + 100;
    // Entries: description, options 1..3, separator, options 4..5, separator.
    let (msgs, status) = list_on_event(ListEvent::CursorMoved { inside: true, entry: Some(2) }, &m, &mut hovered, |i: u32| i, Some(hover));
    assert_eq!(hovered, Some(2));
    assert_eq!(msgs, vec![102]);
    assert_eq!(status, EventStatus::Ignored);
    let (msgs, _) = list_on_event(ListEvent::CursorMoved { inside: true, entry: Some(2) }, &m, &mut hovered, |i: u32| i, Some(hover));
    assert_eq!(hovered, Some(2));
    assert!(msgs.is_empty());
    let (msgs, _) = list_on_event(ListEvent::CursorMoved { inside: true, entry: Some(0) }, &m, &mut hovered, |i: u32| i, Some(hover));
    assert_eq!(hovered, None);
    assert!(msgs.is_empty());
    let (_, _) = list_on_event(ListEvent::CursorMoved { inside: true, entry: Some(5) }, &m, &mut hovered, |i: u32| i, Some(hover));
    assert_eq!(hovered, Some(4));
    let (msgs, _) = list_on_event(ListEvent::CursorMoved { inside: false, entry: None }, &m, &mut hovered, |i: u32| i, Some(hover));
    assert_eq!(hovered, Some(4));
    assert!(msgs.is_empty());
    let (msgs, _) = list_on_event(ListEvent::CursorMoved { inside: true, entry: Some(99) }, &m, &mut hovered, |i: u32| i, Some(hover));
    assert_eq!(hovered, None);
    assert!(msgs.is_empty());
}

#[test]
fn list_press_selects_hovered_option() {
    let m = sample();
    let mut hovered: Option<u32> = Some(3);
    let (msgs, status) = list_on_event(ListEvent::Press { over: true }, &m, &mut hovered, |i: u32| i * 10, None::<fn(u32) -> u32>);
    assert_eq!(msgs, vec![30]);
    assert_eq!(status, EventStatus::Captured);
    let (msgs, status) = list_on_event(ListEvent::Press { over: false }, &m, &mut hovered, |i: u32| i * 10, None::<fn(u32) -> u32>);
    assert!(msgs.is_empty());
    assert_eq!(status, EventStatus::Ignored);
    let (msgs, status) = list_on_event(ListEvent::FingerPressed { inside: true, entry: Some(6) }, &m, &mut hovered, |i: u32| i * 10, Some(|i: u32| i + 100));
    assert_eq!(hovered, Some(5));
    assert_eq!(msgs, vec![50]);
    assert_eq!(status, EventStatus::Ignored);
    let (msgs, _) = list_on_event(ListEvent::FingerPressed { inside: true, entry: Some(4) }, &m, &mut hovered, |i: u32| i * 10, Some(|i: u32| i + 100));
    assert_eq!(hovered, None);
    assert!(msgs.is_empty());
}

#[test]
fn diff_reopens_menu_when_selections_change() {
    let mut state = SingleState::new();
    state.diff(&vec!["a".to_string(), "b".to_string()]);
    assert!(!state.close_operation && !state.open_operation);
    assert_eq!(state.hashes.len(), 2);
    state.is_open = true;
    state.diff(&vec!["a".to_string(), "b".to_string()]);
    assert!(!state.close_operation && !state.open_operation);
    state.diff(&vec!["a".to_string(), "c".to_string()]);
    assert!(state.close_operation && state.open_operation);
    let mut state = SingleState::new();
    state.is_open = true;
    state.diff(&vec![]);
    assert!(!state.close_operation);
    state.diff(&vec!["x".to_string()]);
    assert!(state.close_operation && state.open_operation);
}

#[test]
fn option_style_prefers_selection_over_hover() {
    assert_eq!(option_style(&Some(1u32), &Some(1), &1), OptionStyle::Selected);
    assert_eq!(option_style(&Some(2u32), &Some(1), &1), OptionStyle::Hovered);
    assert_eq!(option_style(&None::<u32>, &Some(3), &1), OptionStyle::Plain);
}
