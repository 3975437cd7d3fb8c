use image::ImageEncoder;
use cosmic_widgets::button::{
    destructive, icon as button_icon, image as button_image, standard, suggested, text, Builder, ButtonClass, ButtonPart,
    ButtonSpacing, FontWeight, Icon, Image, Length, Text,
};
use cosmic_widgets::color_picker::{
    copy_tooltip, ColorPickerModel, ColorPickerUpdate, CopyTooltip, PlaneEvent, PlaneMessage, PlaneState,
};
use cosmic_widgets::context_drawer::{close_icon_name, context_drawer, ContextDrawer, DrawerSpacing, HeaderSlot};
use cosmic_widgets::dnd_destination::{DndAction, EventStatus, Id};
use cosmic_widgets::dnd_source::{is_grabbing, DndSource, DragOrigin, SourceEvent, SourceState};
use cosmic_widgets::flex_row::{flex_row, flex_row_items, rows, FlexRow};
use cosmic_widgets::frames::{
    animated_image, delay_to_nanos, fallback_names, image_type, Animation, DecodedFrame, Error, Frame, Frames, ImageType,
};
use cosmic_widgets::icon::{Handle, ImageHandle, SvgHandle};
use cosmic_widgets::theme::{Layer, Theme, ThemeType};
use cosmic_widgets::portal::{
    initial_state, retry_delay_secs, ColorScheme, Contrast, Desktop, Phase, PortalAction, PortalEvent,
};

fn spacing() -> DrawerSpacing {
    DrawerSpacing { space_xxs: 4, space_s: 8, space_m: 16, space_l: 24 }
}

#[test]
fn drawer_with_actions_puts_title_under_header_row() {
    let pane = ContextDrawer::<&str, u8>::new_inner(
        Some("Title".to_string()),
        Some("actions"),
        Some("extra"),
        None,
        "contents",
        7,
        400,
        spacing(),
    );
    assert!(matches!(pane.header_slot, HeaderSlot::Actions("actions")));
    assert_eq!(pane.column_title, Some("Title".to_string()));
    assert_eq!(pane.header, Some("extra"));
    assert_eq!(pane.on_close, 7);
    assert_eq!(pane.header_padding, [16, 24]);
    assert_eq!(pane.header_spacing, 16);
    assert_eq!(pane.drawer_padding, [0, 24, 24, 24]);
    assert_eq!(pane.footer_padding, [4, 24]);
    assert_eq!(close_icon_name(), "go-next-symbolic");
}

#[test]
fn narrow_drawer_with_footer_has_small_padding() {
    let pane = ContextDrawer::<&str, u8>::new_inner(
        Some("Title".to_string()),
        None,
        None,
        Some("footer"),
        "contents",
        1,
        391,
        spacing(),
    );
    assert!(matches!(pane.header_slot, HeaderSlot::Title(ref t) if t == "Title"));
    assert_eq!(pane.column_title, None);
    assert_eq!(pane.drawer_padding, [0, 8, 0, 8]);
    assert_eq!(pane.footer, Some("footer"));
    assert_eq!(pane.footer_padding, [4, 8]);
    let pane = ContextDrawer::<&str, u8>::new_inner(None, None, None, None, "contents", 1, 392, spacing());
    assert!(matches!(pane.header_slot, HeaderSlot::Space));
    assert_eq!(pane.drawer_padding, [0, 24, 24, 24]);
}

#[test]
fn context_drawer_leaves_on_close_unset() {
    let d = context_drawer(None, None, None, None, 3u8, "view", "drawer", 500, spacing());
    assert_eq!(d.content, "view");
    assert!(d.on_close.is_none());
    assert!(d.id.is_none());
    assert_eq!(d.drawer.on_close, 3);
    let d = d.on_close_maybe(Some(9)).id(Id::Custom(4, "drawer".to_string()));
    assert_eq!(d.on_close, Some(9));
    assert!(matches!(d.id, Some(Id::Custom(4, ref s)) if s == "drawer"));
}

#[test]
fn copy_tooltip_follows_the_time_since_copy() {
    assert_eq!(copy_tooltip(None), CopyTooltip::CopyToClipboard);
    assert_eq!(copy_tooltip(Some(0)), CopyTooltip::Copied);
    assert_eq!(copy_tooltip(Some(2_000_000_000)), CopyTooltip::Copied);
    assert_eq!(copy_tooltip(Some(2_000_000_001)), CopyTooltip::Hidden);
}

#[test]
fn color_picker_sections_need_both_save_and_cancel() {
    let mut state: ColorPickerModel<u32, u32, u64> = ColorPickerModel::new(0, (0, 0, 0), None, None);
    let b = state.builder::<&str>();
    assert_eq!(b.recent_count, 0);
    assert!(!b.copied);
    let s = b.save_label("Save").build(0);
    assert!(!s.recent_colors);
    assert!(s.reset.is_none());
    assert!(s.cancel_save.is_none());
    assert_eq!(s.copy_tooltip, CopyTooltip::CopyToClipboard);

    state.update(ColorPickerUpdate::ActiveColor { color: 5, rgb: (1, 2, 3) });
    state.update(ColorPickerUpdate::ActionFinished { active_as_color: 5 });
    state.update(ColorPickerUpdate::ActiveColor { color: 6, rgb: (1, 2, 4) });
    state.update(ColorPickerUpdate::Copied(10));
    let s = state
        .builder::<&str>()
        .reset_label("Reset")
        .save_label("Save")
        .cancel_label("Cancel")
        .build(3_000_000_000);
    assert!(s.recent_colors);
    assert_eq!(s.reset, Some("Reset"));
    assert_eq!(s.cancel_save, Some(("Cancel", "Save")));
    assert_eq!(s.copy_tooltip, CopyTooltip::Hidden);
}

#[test]
fn portal_backs_off_then_follows_changes() {
    let (mut s, first) = initial_state();
    assert_eq!(first, PortalAction::Connect);
    let step = s.step::<()>(PortalEvent::ConnectFailed);
    assert_eq!(step.action, PortalAction::RetryAfter(1));
    let step = s.step::<()>(PortalEvent::ConnectFailed);
    assert_eq!(step.action, PortalAction::RetryAfter(2));
    let step = s.step::<()>(PortalEvent::ConnectFailed);
    assert_eq!(step.action, PortalAction::RetryAfter(4));
    assert_eq!(s.attempts, 3);
    let step = s.step::<()>(PortalEvent::Connected);
    assert_eq!(step.action, PortalAction::ReadColorScheme);
    let step = s.step::<()>(PortalEvent::ColorSchemeRead(Some(ColorScheme::PreferDark)));
    assert_eq!(step.send, Some(Desktop::ColorScheme(ColorScheme::PreferDark)));
    assert_eq!(step.action, PortalAction::ReadContrast);
    let step = s.step::<()>(PortalEvent::ContrastRead(None));
    assert_eq!(step.send, None);
    assert_eq!(step.action, PortalAction::SubscribeColorScheme);
    let step = s.step::<()>(PortalEvent::ColorSchemeSubscribed(true));
    assert_eq!(step.action, PortalAction::SubscribeContrast);
    let step = s.step::<()>(PortalEvent::ContrastSubscribed(false));
    assert_eq!(step.action, PortalAction::AwaitChange { color_scheme: true, contrast: false });
    assert_eq!(s.attempts, 3);
    let step = s.step::<()>(PortalEvent::ColorSchemeChanged(Some(ColorScheme::PreferLight)));
    assert_eq!(step.send, Some(Desktop::ColorScheme(ColorScheme::PreferLight)));
    assert_eq!(s.attempts, 0);
    assert_eq!(s.phase, Phase::Watching);
    let step = s.step::<()>(PortalEvent::ColorSchemeChanged(None));
    assert_eq!(step.send, None);
    assert_eq!(step.action, PortalAction::Connect);
    assert_eq!(s.phase, Phase::Connecting);
}

#[test]
fn portal_ignores_unexpected_answers() {
    let (mut s, _) = initial_state();
    let before = s;
    let step = s.step::<()>(PortalEvent::ContrastChanged(Some(Contrast::High)));
    assert_eq!(step.send, None);
    assert_eq!(step.action, PortalAction::Connect);
    assert_eq!(s, before);
}

#[test]
fn retry_delay_is_a_power_of_two() {
    assert_eq!(retry_delay_secs(0), 1);
    assert_eq!(retry_delay_secs(10), 1024);
    assert_eq!(retry_delay_secs(63), 1u64 << 63);
}

#[test]
fn image_type_by_extension() {
    assert!(matches!(image_type("/a/b.gif"), Ok(ImageType::Gif)));
    assert!(matches!(image_type("x.apng"), Ok(ImageType::Apng)));
    assert!(matches!(image_type("x.webp"), Ok(ImageType::WebP)));
    assert!(matches!(image_type("x.png"), Err(Error::Extension)));
    assert!(matches!(image_type("noext"), Err(Error::Extension)));
    assert!(matches!(image_type("dir/.gif"), Err(Error::Extension)));
    assert!(matches!(image_type("a.b.gif"), Ok(ImageType::Gif)));
    assert!(matches!(image_type("dir.gif/"), Ok(ImageType::Gif)));
    assert!(matches!(image_type("x.webp/.."), Err(Error::Extension)));
}

#[test]
fn fallback_names_drop_suffixes() {
    assert_eq!(fallback_names("a-b-c"), vec!["a-b".to_string(), "a".to_string()]);
    assert!(fallback_names("plain").is_empty());
}

#[test]
fn delays_are_whole_milliseconds_and_rest() {
    assert_eq!(delay_to_nanos(70, 1), 70_000_000);
    assert_eq!(delay_to_nanos(1000, 3), 333_333_333);
    let f = Frame::from_decoded(DecodedFrame {
        width: 1,
        height: 1,
        pixels: vec![1, 2, 3, 4],
        delay_numer_ms: 1,
        delay_denom_ms: 3,
    });
    assert_eq!(f.delay_nanos, 333_333);
    assert_eq!(f.handle, ImageHandle::Rgba { width: 1, height: 1, pixels: vec![1, 2, 3, 4] });
}

fn gif_bytes() -> Vec<u8> {
    let mut out: Vec<u8> = Vec::new();
    {
        let mut enc = image::codecs::gif::GifEncoder::new(&mut out);
        let red = image::RgbaImage::from_pixel(2, 1, image::Rgba([255, 0, 0, 255]));
        let blue = image::RgbaImage::from_pixel(2, 1, image::Rgba([0, 0, 255, 255]));
        enc.encode_frame(image::Frame::from_parts(red, 0, 0, image::Delay::from_numer_denom_ms(70, 1)))
            .unwrap();
        enc.encode_frame(image::Frame::from_parts(blue, 0, 0, image::Delay::from_numer_denom_ms(120, 1)))
            .unwrap();
    }
    out
}

#[test]
fn gif_decodes_into_frames() {
    let frames = Frames::from_bytes(gif_bytes(), ImageType::Gif).unwrap().unwrap();
    assert_eq!(frames.frames.len(), 2);
    assert_eq!(frames.frames[0].delay_nanos, 70_000_000);
    assert_eq!(frames.frames[1].delay_nanos, 120_000_000);
    assert_eq!(frames.first.delay_nanos, 70_000_000);
    assert_eq!(frames.total_bytes, 16);
    match &frames.frames[1].handle {
        ImageHandle::Rgba { width, height, pixels } => {
            assert_eq!((*width, *height), (2, 1));
            assert_eq!(pixels[2], 255);
        }
        _ => panic!("a decoded frame holds pixels"),
    }
}

#[test]
fn garbage_is_a_decoder_error() {
    let r = Frames::from_bytes(vec![1, 2, 3], ImageType::Gif);
    assert!(matches!(r, Some(Err(Error::Image(_)))));
}

#[test]
fn still_png_has_no_animation_frames() {
    let mut out: Vec<u8> = Vec::new();
    image::codecs::png::PngEncoder::new(&mut out)
        .write_image(&[0, 0, 0, 255], 1, 1, image::ExtendedColorType::Rgba8)
        .unwrap();
    assert!(Frames::from_bytes(out, ImageType::Apng).is_none());
}

#[test]
fn animation_advances_after_delay() {
    let mut a = Animation::new(100, 16);
    let delays = vec![50u64, 30];
    assert_eq!(a.on_redraw(120, &delays), 150);
    assert_eq!(a.index, 0);
    assert_eq!(a.on_redraw(151, &delays), 181);
    assert_eq!(a.index, 1);
    assert_eq!(a.on_redraw(190, &delays), 240);
    assert_eq!(a.index, 0);
    a.diff(300, 16);
    assert_eq!(a.started, 190);
    a.diff(300, 17);
    assert_eq!((a.index, a.started, a.total_bytes), (0, 300, 17));
}

#[test]
fn drag_starts_past_threshold_and_reports_end() {
    let src: DndSource<&str, u8, fn() -> u8, ()> =
        DndSource::with_id("child", Id::Unique(1)).drag_content((|| 0u8) as fn() -> u8).on_start(Some(1)).on_finish(Some(2));
    assert_eq!(src.action.bits, DndAction::copy().union(DndAction::move_action()).bits);
    let mut st: SourceState<(i32, i32)> = SourceState::new();
    let r = src.on_event(&mut st, SourceEvent::CursorMoved { position: Some((1, 1)), over: true, past_threshold: false }, EventStatus::Ignored);
    assert_eq!(r.status, EventStatus::Captured);
    assert!(st.hovered);
    let r = src.on_event(&mut st, SourceEvent::LeftPressed { position: Some((1, 1)) }, EventStatus::Ignored);
    assert_eq!(r.status, EventStatus::Captured);
    assert_eq!(st.left_pressed_position, Some((1, 1)));
    let r = src.on_event(&mut st, SourceEvent::CursorMoved { position: Some((9, 9)), over: true, past_threshold: true }, EventStatus::Ignored);
    assert_eq!(r.message, Some(1));
    assert_eq!(r.start_drag_from, Some((1, 1)));
    assert!(is_grabbing(&st));
    let r = src.on_event(&mut st, SourceEvent::Finished, EventStatus::Ignored);
    assert_eq!(r.message, Some(2));
    assert!(!st.is_dragging);
    let r = src.on_event(&mut st, SourceEvent::Cancelled, EventStatus::Ignored);
    assert_eq!(r.status, EventStatus::Ignored);
    assert_eq!(r.message, None);
}

#[test]
fn source_without_content_forgets_press() {
    let src: DndSource<&str, u8, fn() -> u8, ()> = DndSource::with_id("child", Id::Unique(2));
    let mut st: SourceState<(i32, i32)> = SourceState::new();
    st.hovered = true;
    src.on_event(&mut st, SourceEvent::LeftPressed { position: Some((0, 0)) }, EventStatus::Ignored);
    let r = src.on_event(&mut st, SourceEvent::CursorMoved { position: Some((9, 9)), over: true, past_threshold: true }, EventStatus::Ignored);
    assert_eq!(r.status, EventStatus::Ignored);
    assert!(st.left_pressed_position.is_none());
    assert!(r.start_drag_from.is_none());
}

fn button_spacing() -> ButtonSpacing {
    ButtonSpacing { space_xxxs: 4, space_xxs: 8, space_xs: 12, space_s: 16, space_l: 32 }
}

#[test]
fn text_buttons_take_theme_sizes() {
    let b: Builder<u8, Text> = suggested("Save".to_string(), Id::Unique(1), button_spacing());
    assert_eq!(b.label, "Save");
    assert_eq!(b.class, ButtonClass::Suggested);
    assert_eq!(b.height, Length::Fixed(32));
    assert_eq!(b.padding, [0, 16, 0, 16]);
    assert_eq!(b.spacing, 4);
    assert_eq!((b.icon_size, b.line_height, b.font_size), (16, 20, 14));
    assert_eq!(b.parts(), vec![ButtonPart::Label]);
    let b = b.trailing_icon(Handle::Svg(SvgHandle::Bytes(vec![]))).leading_icon(Handle::Svg(SvgHandle::Bytes(vec![1])));
    assert_eq!(b.parts(), vec![ButtonPart::LeadingIcon, ButtonPart::Label, ButtonPart::TrailingIcon]);
    let b = b.label(String::new());
    assert_eq!(b.parts(), vec![ButtonPart::LeadingIcon, ButtonPart::TrailingIcon]);
    assert!(!b.shows_tooltip());
    assert!(b.tooltip("Help".to_string()).shows_tooltip());
    let d: Builder<u8, Text> = destructive("Delete".to_string(), Id::Unique(2), button_spacing());
    assert_eq!(d.class, ButtonClass::Destructive);
    let t: Builder<u8, Text> = text("Close".to_string(), Id::Unique(3), button_spacing());
    assert_eq!(t.class, ButtonClass::Text);
    let s: Builder<u8, Text> = standard("Ok".to_string(), Id::Unique(4), button_spacing());
    assert_eq!(s.class, ButtonClass::Standard);
}

#[test]
fn icon_buttons_size_presets() {
    let h = Handle::Svg(SvgHandle::Path("x.svg".to_string()));
    let b: Builder<u8, Icon> = button_icon(h, true, Id::Unique(5), button_spacing());
    assert_eq!(b.icon_size, 16);
    assert_eq!(b.padding, [8, 8, 8, 8]);
    assert_eq!(b.class, ButtonClass::Icon);
    assert_eq!(b.parts(), vec![ButtonPart::Icon]);
    let b = b.extra_large(button_spacing());
    assert_eq!((b.font_size, b.icon_size, b.line_height), (32, 56, 44));
    assert_eq!(b.font_weight, FontWeight::Light);
    assert_eq!(b.padding, [12, 12, 12, 12]);
    assert_eq!(b.spacing, 8);
    let b = b.medium(button_spacing());
    assert_eq!((b.font_size, b.icon_size, b.line_height, b.font_weight), (24, 32, 32, FontWeight::Normal));
    let b = b.large(button_spacing());
    assert_eq!((b.font_size, b.icon_size, b.line_height), (28, 40, 36));
    let b = b.extra_small(button_spacing());
    assert_eq!((b.font_size, b.icon_size, b.line_height, b.spacing), (14, 16, 20, 4));
    let b = b.vertical(true).selected(true).label("Name".to_string());
    assert_eq!(b.class, ButtonClass::IconVertical);
    assert!(b.variant.vertical && b.variant.selected);
    assert_eq!(b.parts(), vec![ButtonPart::Icon, ButtonPart::Label]);
    let raster: Builder<u8, Icon> = button_icon(Handle::Image(ImageHandle::Path("a.png".to_string())), false, Id::Unique(6), button_spacing());
    assert_eq!(raster.icon_size, 24);
}

#[test]
fn image_buttons_have_no_padding() {
    let b: Builder<u8, Image<&str, u8>> = button_image("picture", Id::Unique(7));
    assert_eq!(b.padding, [0, 0, 0, 0]);
    assert_eq!(b.class, ButtonClass::Image);
    assert!(b.variant.on_remove.is_none());
    let b = b.on_remove(3).selected(true);
    assert_eq!(b.variant.on_remove, Some(3));
    assert!(b.variant.selected);
    let b = b.on_remove_maybe(None).on_press(9).width(Length::Fill);
    assert!(b.variant.on_remove.is_none());
    assert_eq!(b.on_press, Some(9));
    assert_eq!(b.width, Length::Fill);
}

#[test]
fn plane_drag_picks_until_release() {
    let mut st = PlaneState::new();
    assert!(st.routes_to_children());
    let (m, s) = st.on_event(PlaneEvent::Pressed { point: Some(7u8) }, true);
    assert!(m.is_none());
    assert_eq!(s, EventStatus::Captured);
    assert!(!st.dragging);
    let (m, s) = st.on_event(PlaneEvent::Pressed::<u8> { point: None }, false);
    assert!(m.is_none());
    assert_eq!(s, EventStatus::Ignored);
    let (m, s) = st.on_event(PlaneEvent::Pressed { point: Some(7u8) }, false);
    assert!(matches!(m, Some(PlaneMessage::ActiveColor(7))));
    assert_eq!(s, EventStatus::Captured);
    assert!(!st.routes_to_children());
    let (m, _) = st.on_event(PlaneEvent::CursorMoved { point: Some(9u8) }, false);
    assert!(matches!(m, Some(PlaneMessage::ActiveColor(9))));
    let (m, s) = st.on_event(PlaneEvent::<u8>::Other, false);
    assert!(m.is_none());
    assert_eq!(s, EventStatus::Ignored);
    assert!(st.dragging);
    let (m, s) = st.on_event(PlaneEvent::<u8>::Released, false);
    assert!(matches!(m, Some(PlaneMessage::ActionFinished)));
    assert_eq!(s, EventStatus::Captured);
    assert!(!st.dragging);
}

#[test]
fn themes_start_on_the_background_layer() {
    let mut t: Theme<u8> = Theme::light_hc();
    assert_eq!(t.theme_type, ThemeType::HighContrastLight);
    assert_eq!(t.current_container(), Layer::Background);
    t.set_layer(Layer::Secondary);
    assert_eq!(t.current_container(), Layer::Secondary);
    assert_eq!(t.theme_type, ThemeType::HighContrastLight);
    assert_eq!(Theme::<u8>::dark().theme_type, ThemeType::Dark);
    assert_eq!(Theme::<u8>::light().theme_type, ThemeType::Light);
    assert_eq!(Theme::<u8>::dark_hc().theme_type, ThemeType::HighContrastDark);
    assert_eq!(Theme::custom(5u8).theme_type, ThemeType::Custom(5));
}

#[test]
fn drag_starts_from_window_or_widget() {
    let src: DndSource<&str, u8, fn() -> Vec<u8>, u32> = DndSource::with_id("child", Id::Unique(3));
    assert!(src.start_dnd::<Vec<u8>>().is_none());
    let src = src.drag_content((|| vec![1u8, 2]) as fn() -> Vec<u8>);
    let req = src.start_dnd::<Vec<u8>>().unwrap();
    assert_eq!(req.content, vec![1, 2]);
    assert!(matches!(req.origin, DragOrigin::Widget(Id::Unique(3))));
    assert_eq!(req.actions.bits, 3);
    let src = src.window(77);
    let req = src.start_dnd::<Vec<u8>>().unwrap();
    assert!(matches!(req.origin, DragOrigin::Surface(77)));
}

#[test]
fn flex_row_counts_items_that_fit() {
    assert_eq!(flex_row_items(100, 20, 4), 4);
    assert_eq!(flex_row_items(92, 20, 4), 4);
    assert_eq!(flex_row_items(91, 20, 4), 3);
    assert_eq!(flex_row_items(0, 20, 4), 1);
    assert_eq!(flex_row_items(70, 70, 0), 1);
    assert_eq!(flex_row_items(140, 70, 0), 2);
    let f = flex_row();
    assert_eq!((f.column_spacing, f.row_spacing, f.max_items), (4, 4, None));
    assert_eq!(f.items_per_row(100, 20), 4);
    let f = FlexRow { max_items: Some(6), ..f };
    assert_eq!(f.items_per_row(100, 20), 6);
    let f = FlexRow { max_items: Some(2), ..f };
    assert_eq!(f.items_per_row(100, 20), 4);
}

#[test]
fn rows_split_items_in_order() {
    let r = rows(vec![1, 2, 3, 4, 5, 6, 7], 3);
    assert_eq!(r, vec![vec![1, 2, 3], vec![4, 5, 6], vec![7]]);
    let r = rows(vec![1, 2], 5);
    assert_eq!(r, vec![vec![1, 2]]);
    let r: Vec<Vec<u8>> = rows(vec![], 2);
    assert!(r.is_empty());
}

#[test]
fn animated_image_follows_frame_delays() {
    let frames = Frames::from_bytes(gif_bytes(), ImageType::Gif).unwrap().unwrap();
    let img = animated_image(&frames).width(Length::Fixed(10));
    assert_eq!(img.width, Length::Fixed(10));
    assert_eq!(img.height, Length::Shrink);
    let delays = img.delays();
    assert_eq!(delays, vec![70_000_000, 120_000_000]);
    let mut st = img.state(0);
    assert_eq!(st.total_bytes, 16);
    assert_eq!(st.on_redraw(80_000_000, &delays), 200_000_000);
    assert_eq!(st.index, 1);
}
