use cosmic_widgets::about::{add_contributors, About, AboutPart};
use cosmic_widgets::color_picker::{color_to_string, ColorPickerModel, ColorPickerUpdate, MAX_RECENT};
use cosmic_widgets::context_menu::{context_menu, ContextMenu, MenuEvent, MenuOutcome, MenuState, MenuTree, PopupRequest, WindowId};
use cosmic_widgets::dialog::{dialog, ButtonItem, ContentItem, Gap};
use cosmic_widgets::expander::{expander, toggler_icon_name, Expander, ExpanderEvent, ExpanderState, RowEntry};
use cosmic_widgets::button::Length;
use cosmic_widgets::grid::{align_items, justify_items, AlignItems, Alignment, Assignment, Grid};
use cosmic_widgets::header_bar::{header_bar, height, padding, CenterContent, Density, HeaderBar, HeaderBarWidget, WindowControl};
use cosmic_widgets::headerbar::{HeaderBar as SimpleHeaderBar, WindowMsg};
use cosmic_widgets::icon::{icon, Handle, IconSource, ImageHandle, SvgHandle};
use cosmic_widgets::link::{hyperlink, link};
use cosmic_widgets::theme::{Checkbox, Scrollable, Svg, Tooltip};
use cosmic_widgets::track::Track;

#[test]
fn track_records_changes() {
    let mut t = Track::new(3);
    assert_eq!(*t.get(), 3);
    assert!(t.changed());
    t.set(5);
    assert_eq!(*t.get(), 5);
    assert!(t.changed());
    let d: Track<u8> = Track::default();
    assert_eq!(*d.get(), 0);
    assert!(d.changed());
}

#[test]
fn grid_fills_rows() {
    let g = Grid::new().push('a').push('b').insert_row().push('c');
    assert_eq!(g.children(), &vec!['a', 'b', 'c']);
    let a = g.assignments();
    assert_eq!((a[0].column, a[0].row), (1, 1));
    assert_eq!((a[1].column, a[1].row), (2, 1));
    assert_eq!((a[2].column, a[2].row), (1, 2));
    let g = Grid::new().push_with('x', |a: Assignment| a.width(3));
    assert_eq!(g.assignments()[0], Assignment { column: 1, row: 1, width: 3, height: 1 });
    assert_eq!(Assignment::from((4u16, 5u16)), Assignment { column: 4, row: 5, width: 1, height: 1 });
    assert_eq!(Assignment::from((4u16, 5u16, 2u16, 3u16)), Assignment { column: 4, row: 5, width: 2, height: 3 });
    assert_eq!(Assignment::default(), Assignment::new());
}

#[test]
fn expander_toggles_and_reports_rows() {
    let mut e: Expander<&str, fn(usize) -> usize> = expander();
    assert!(!e.expansible);
    e.push("one");
    e.push("two");
    e.push("three");
    assert_eq!(e.rows.as_ref().unwrap().len(), 3);
    assert_eq!(
        e.row_entries(),
        vec![RowEntry::Row(0), RowEntry::Separator, RowEntry::Row(1), RowEntry::Separator, RowEntry::Row(2)]
    );
    let mut e = e.rows(vec!["x"]).on_row_selected((|i: usize| i + 100) as fn(usize) -> usize);
    assert!(e.expansible);
    let mut state = ExpanderState::default();
    assert!(state.expanded);
    assert!(e.shows_rows(&state));
    assert_eq!(e.update(&mut state, ExpanderEvent::Expand), None);
    assert!(!state.expanded);
    assert!(!e.shows_rows(&state));
    assert_eq!(e.update(&mut state, ExpanderEvent::RowSelected(0)), Some(100));
    assert_eq!(toggler_icon_name(true), "go-down-symbolic");
    assert_eq!(toggler_icon_name(false), "go-next-symbolic");
}

#[test]
fn header_bar_layout_decisions() {
    assert_eq!(padding(true, Density::Compact, true), [2, 8, 2, 8]);
    assert_eq!(padding(false, Density::Compact, true), [4, 8, 4, 8]);
    assert_eq!(padding(false, Density::Compact, false), [3, 7, 4, 7]);
    assert_eq!(padding(false, Density::Standard, true), [8, 8, 8, 8]);
    assert_eq!(padding(false, Density::Spacious, false), [7, 7, 8, 7]);
    assert_eq!(height([7, 7, 8, 7]), 47);

    let h: HeaderBar<u8, char> = header_bar();
    assert_eq!(h.center_content(), CenterContent::Empty);
    let h = h.title("Files".to_string());
    assert_eq!(h.center_content(), CenterContent::Title);
    let mut h = h.center('c').start('s').end('e').on_close(1).on_maximize(2).maximized(true);
    assert_eq!(h.center_content(), CenterContent::Elements);
    let controls = h.window_controls();
    assert_eq!(controls, vec![(WindowControl::Restore, 2), (WindowControl::Close, 1)]);
    assert!(h.on_close.is_none() && h.on_maximize.is_none());
    assert_eq!(WindowControl::Close.icon_name(), "window-close-symbolic");

    let w = HeaderBarWidget::new('s', Some('c'), 'e');
    assert_eq!(w.elems(), vec![&'s', &'e', &'c']);
    let w = HeaderBarWidget::new('s', None, 'e');
    assert_eq!(w.elems(), vec![&'s', &'e']);
}

#[test]
fn simple_header_bar_renders_controls() {
    let mut h = SimpleHeaderBar::default();
    h.title = "Title".to_string();
    h.show_maximize = true;
    let v = h.render();
    assert_eq!(v.title, "Title");
    assert_eq!(v.nav_icon, "go-next-symbolic");
    assert_eq!(v.nav_press, WindowMsg::ToggleSidebar);
    assert_eq!(v.controls, vec![("window-maximize-symbolic", WindowMsg::Maximize), ("window-close-symbolic", WindowMsg::Close)]);
    assert_eq!(v.press, WindowMsg::Drag);
    h.sidebar_active = true;
    assert_eq!(h.nav_icon(), "go-previous-symbolic");
}

#[test]
fn dialog_lays_out_content_and_buttons() {
    let d = dialog::<&str>("Delete?".to_string())
        .body("This cannot be undone.".to_string())
        .control("checkbox")
        .primary_action("delete")
        .tertiary_action("help")
        .icon("icon");
    let l = d.layout();
    assert_eq!(l.icon, Some("icon"));
    assert_eq!(l.content.len(), 5);
    assert!(matches!(&l.content[0], ContentItem::Title(t) if t == "Delete?"));
    assert!(matches!(l.content[1], ContentItem::Space(Gap::ExtraExtraSmall)));
    assert!(matches!(&l.content[2], ContentItem::Body(b) if b == "This cannot be undone."));
    assert!(matches!(l.content[3], ContentItem::Space(Gap::Small)));
    assert!(matches!(l.content[4], ContentItem::Control("checkbox")));
    assert_eq!(l.buttons.len(), 3);
    assert!(matches!(l.buttons[0], ButtonItem::Button("help")));
    assert!(matches!(l.buttons[1], ButtonItem::Fill));
    assert!(matches!(l.buttons[2], ButtonItem::Button("delete")));
}

#[test]
fn colors_format_as_hex_or_rgb() {
    assert_eq!(color_to_string(255, 0, 16, true), "#FF0010");
    assert_eq!(color_to_string(1, 171, 205, true), "#01ABCD");
    assert_eq!(color_to_string(255, 0, 16, false), "rgb(255, 0, 16)");
    assert_eq!(color_to_string(7, 42, 100, false), "rgb(7, 42, 100)");
}

#[test]
fn color_picker_keeps_recent_colors() {
    let mut s: ColorPickerModel<u32, u32, u8> = ColorPickerModel::new(0, (0, 0, 0), Some(9), None);
    assert_eq!(s.input_color, "#000000");
    assert_eq!(s.get_applied_color(), Some(9));
    assert!(!s.get_is_active());
    s.update(ColorPickerUpdate::ToggleColorPicker);
    assert!(s.get_is_active());
    s.update(ColorPickerUpdate::ActionFinished { active_as_color: 1 });
    assert_eq!(s.recent_colors, vec![9]);
    assert_eq!(s.applied_color, Some(1));
    assert_eq!(s.save_next, Some(1));
    s.update(ColorPickerUpdate::ActiveColor { color: 7, rgb: (255, 255, 255) });
    assert_eq!(s.recent_colors, vec![1, 9]);
    assert_eq!(s.input_color, "#FFFFFF");
    assert_eq!(s.active_color, 7);
    for c in 0..30u32 {
        s.save_next = Some(c + 100);
        s.update(ColorPickerUpdate::ActiveColor { color: c, rgb: (1, 2, 3) });
    }
    assert_eq!(s.recent_colors.len(), MAX_RECENT);
    assert_eq!(s.recent_colors[0], 129);
    s.update(ColorPickerUpdate::ActivateSegmented { is_hex: false, active_rgb: (1, 2, 3) });
    assert_eq!(s.input_color, "rgb(1, 2, 3)");
    assert_eq!(s.update(ColorPickerUpdate::Copied(4)), Some("rgb(1, 2, 3)".to_string()));
    assert_eq!(s.copied_at, Some(4));
    s.update(ColorPickerUpdate::Input { text: "red".to_string(), parsed: Some(11) });
    assert_eq!(s.active_color, 11);
    assert_eq!(s.copied_at, None);
    s.update(ColorPickerUpdate::Reset { fallback_as_hsv: 0 });
    assert_eq!(s.applied_color, Some(9));
}

#[test]
fn icon_handles_follow_sources() {
    let found = Some("/usr/share/icons/a.svg".to_string());
    let named = IconSource::Name("folder".to_string());
    assert_eq!(named.lookup_name(), Some(&"folder".to_string()));
    assert_eq!(named.load(found.clone(), false), Handle::Svg(SvgHandle::Path("/usr/share/icons/a.svg".to_string())));
    assert_eq!(named.load(None, false), Handle::Svg(SvgHandle::Bytes(Vec::new())));
    let png = IconSource::Path("/tmp/a.png".to_string());
    assert_eq!(png.load(None, false), Handle::Image(ImageHandle::Path("/tmp/a.png".to_string())));
    assert_eq!(png.load(None, true), Handle::Svg(SvgHandle::Path("/tmp/a.png".to_string())));
    let raster = IconSource::raster_from_pixels(1, 1, vec![0, 0, 0, 255]);
    assert_eq!(
        raster.load(None, true),
        Handle::Image(ImageHandle::Rgba { width: 1, height: 1, pixels: vec![0, 0, 0, 255] })
    );
    let i = icon(IconSource::svg_from_memory(vec![1]), 16).force_svg(true);
    assert_eq!(i.handle(None), Handle::Svg(SvgHandle::Bytes(vec![1])));
    assert_eq!(i.size, 16);
}

#[test]
fn about_lists_contributors_and_parts() {
    let c = add_contributors(vec![("Ann", "ann@example.org")]);
    assert_eq!(c, vec![("Ann".to_string(), "mailto:ann@example.org".to_string())]);
    let a = About::default();
    assert!(a.parts().is_empty());
    assert_eq!(a.license_link(), "");
    let a = About::default()
        .name("App".to_string())
        .developers(vec![("Bo", "bo@example.org")])
        .license("MPL-2.0".to_string())
        .license_url("https://mozilla.org/MPL/2.0/".to_string())
        .copyright("2024".to_string());
    assert_eq!(a.parts(), vec![AboutPart::Header, AboutPart::Developers, AboutPart::License, AboutPart::Copyright]);
    assert_eq!(a.developers[0].1, "mailto:bo@example.org");
    assert_eq!(a.license_link(), "https://mozilla.org/MPL/2.0/");
}

#[test]
fn links_and_theme_defaults() {
    let l = link::<u8>("Docs".to_string()).trailing_icon(true);
    assert!(l.variant.trailing_icon);
    assert_eq!(l.padding, 4);
    assert!(!l.shows_tooltip());
    let l = l.tooltip("Open".to_string());
    assert!(l.shows_tooltip());
    let h = hyperlink::<u8>().with_icon();
    assert_eq!(h.padding, 0);
    assert!(h.variant.trailing_icon);
    assert_eq!(Checkbox::default(), Checkbox::Primary);
    assert_eq!(Scrollable::default(), Scrollable::Permanent);
    assert_eq!(Tooltip::default(), Tooltip::Default);
}

#[test]
fn grid_placement_spans_cells() {
    let a = Assignment::new().column(2).row(3).width(2).height(1);
    assert!(a.fits_lines());
    let p = a.placement();
    assert_eq!((p.column_start, p.column_end, p.row_start, p.row_end), (2, 4, 3, 4));
    assert!(!Assignment::new().column(32767).width(1).fits_lines());
    assert!(Assignment::new().column(32766).width(1).fits_lines());
    assert_eq!(align_items(Length::Fill, Alignment::Center), AlignItems::Stretch);
    assert_eq!(align_items(Length::Shrink, Alignment::End), AlignItems::End);
    assert_eq!(justify_items(Length::FillPortion(2), Alignment::Start), AlignItems::Stretch);
    assert_eq!(justify_items(Length::Fixed(10), Alignment::Center), AlignItems::Center);
}

#[test]
fn context_menu_opens_on_right_release_and_closes_on_press() {
    let cm: ContextMenu<&str, u8, fn() -> u8> = context_menu("view", Some(vec![MenuTree::new(1), MenuTree::new(2)]));
    assert!(cm.close_on_escape);
    assert_eq!(cm.window_id, WindowId::Reserved);
    let mut st: MenuState<(i32, i32)> = MenuState::new();
    assert_eq!(cm.on_event(&mut st, MenuEvent::RightReleased, false, Some((3, 4)), false, 0).0, MenuOutcome::ToContent);
    assert!(!st.open);
    assert_eq!(cm.on_event(&mut st, MenuEvent::RightReleased, true, Some((3, 4)), false, 0).0, MenuOutcome::Opened);
    assert!(st.open && cm.shows_menu(&st, false));
    assert_eq!(st.context_cursor, Some((3, 4)));
    assert_eq!(cm.on_event(&mut st, MenuEvent::LeftPressed, true, None, false, 0).0, MenuOutcome::ToContent);
    assert!(!st.open);
    cm.on_event(&mut st, MenuEvent::FingerPressed(1), true, None, false, 0);
    cm.on_event(&mut st, MenuEvent::FingerPressed(2), true, None, false, 0);
    assert_eq!(st.fingers_pressed.len(), 2);
    assert_eq!(cm.on_event(&mut st, MenuEvent::FingerLifted(2), true, Some((5, 5)), false, 0).0, MenuOutcome::Opened);
    assert_eq!(st.fingers_pressed.len(), 1);
    let none: ContextMenu<&str, u8, fn() -> u8> = context_menu("view", None);
    let mut st2: MenuState<(i32, i32)> = MenuState::new();
    assert_eq!(none.on_event(&mut st2, MenuEvent::RightReleased, true, None, false, 0).0, MenuOutcome::ToContent);
    assert!(!none.shows_menu(&st2, false));
}

fn surface_message() -> u8 {
    1
}

#[test]
fn context_menu_creates_and_destroys_its_popup() {
    let cm: ContextMenu<&str, u8, fn() -> u8> = context_menu("view", Some(vec![MenuTree::new(1)]))
        .on_surface_action(surface_message as fn() -> u8)
        .window_id(WindowId::Window(1));
    let mut st: MenuState<(i32, i32)> = MenuState::new();
    let (outcome, requests) = cm.on_event(&mut st, MenuEvent::RightReleased, true, Some((1, 1)), true, 9);
    assert_eq!(outcome, MenuOutcome::Opened);
    assert_eq!(requests, vec![PopupRequest::Create(9)]);
    assert_eq!(st.popup, Some(9));
    assert!(!cm.shows_menu(&st, true));
    let (outcome, requests) = cm.on_event(&mut st, MenuEvent::RightReleased, true, Some((2, 2)), true, 10);
    assert_eq!(outcome, MenuOutcome::Opened);
    assert_eq!(requests, vec![PopupRequest::Destroy(9), PopupRequest::Create(9)]);
    let (outcome, requests) = cm.on_event(&mut st, MenuEvent::EscapePressed, false, None, true, 11);
    assert_eq!(outcome, MenuOutcome::ToContent);
    assert_eq!(requests, vec![PopupRequest::Destroy(9)]);
    assert_eq!(st.popup, None);
    assert!(!st.open);
}

#[test]
fn icon_sizes_default_to_its_size() {
    let i = icon(IconSource::Name("x".to_string()), 24);
    assert!(i.width.is_none() && i.height.is_none());
    assert_eq!(i.style, Svg::Default);
    assert_eq!(i.drawn_width(), Length::Fixed(24));
    let i = i.width(Length::Fill).style(Svg::Symbolic);
    assert_eq!(i.drawn_width(), Length::Fill);
    assert_eq!(i.drawn_height(), Length::Fixed(24));
    assert_eq!(i.style, Svg::Symbolic);
}

#[test]
fn header_regions_change_in_place() {
    let mut w = HeaderBarWidget::new(1, Some(2), 3);
    {
        let (s, e, c) = w.elems_mut();
        *s += 10;
        *e += 10;
        if let Some(c) = c {
            *c += 10;
        }
    }
    assert_eq!((w.start, w.center, w.end), (11, Some(12), 13));
}

#[test]
fn track_stays_changed() {
    let mut t = Track::new(1);
    let _ = t.get();
    t.set(2);
    assert!(t.changed());
}

#[test]
fn new_grid_has_no_assignments() {
    let g: Grid<u8> = Grid::new();
    assert!(g.assignments().is_empty());
}

#[test]
fn context_menu_puts_its_trees_under_one_numbered_row() {
    let inner = MenuTree::with_children(Some(3u8), vec![MenuTree::new(4), MenuTree::new(5)]);
    let cm: ContextMenu<&str, u8, fn() -> u8> = context_menu("view", Some(vec![MenuTree::new(1), inner]));
    let roots = cm.context_menu.unwrap();
    assert_eq!(roots.len(), 1);
    assert_eq!(roots[0].item, None);
    assert_eq!(roots[0].index, 0);
    let menus = &roots[0].children;
    assert_eq!(menus.len(), 2);
    assert_eq!((menus[0].item, menus[0].index), (Some(1), 0));
    assert_eq!((menus[1].item, menus[1].index), (Some(3), 1));
    let deeper = &menus[1].children;
    assert_eq!((deeper[0].item, deeper[0].index), (Some(4), 0));
    assert_eq!((deeper[1].item, deeper[1].index), (Some(5), 1));
}
