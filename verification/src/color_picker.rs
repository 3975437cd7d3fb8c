//! The state of a color picker: the color being edited, the applied color,
//! the text of the color field, and the recently used colors.
//!
//! Colors are held by the types `H` (hue, saturation, value) and `C` (red,
//! green, blue); converting between them is done where the picker is drawn,
//! and the results arrive with the updates.

use vstd::prelude::*;
use vstd::string::*;
use crate::dnd_destination::EventStatus;

verus! {

/// How many colors the list of recent colors keeps when a new one is saved.
pub const MAX_RECENT: usize = 20;

/// `String::push`: appends a character.
#[verifier::external_body]
fn push_char(s: &mut String, c: char)
    ensures
        final(s)@ == old(s)@.push(c),
{
    s.push(c)
}

/// The upper-case hexadecimal digit of `n`, below 16.
pub open spec fn hex_digit(n: int) -> char {
    if n < 10 {
        (n + 48) as char
    } else {
        (n + 55) as char
    }
}

/// Two upper-case hexadecimal digits of a byte.
pub open spec fn hex_byte(b: u8) -> Seq<char> {
    seq![hex_digit(b as int / 16), hex_digit(b as int % 16)]
}

/// The decimal digits of `n`, without leading zeros.
pub open spec fn decimal(n: nat) -> Seq<char>
    decreases n,
{
    if n < 10 {
        seq![(n + 48) as char]
    } else {
        decimal(n / 10).push(((n % 10) + 48) as char)
    }
}

/// The text of a color: `#RRGGBB` in upper-case hexadecimal, or `rgb(r, g, b)` in decimal.
pub open spec fn color_text(red: u8, green: u8, blue: u8, is_hex: bool) -> Seq<char> {
    if is_hex {
        seq!['#'] + hex_byte(red) + hex_byte(green) + hex_byte(blue)
    } else {
        "rgb("@ + decimal(red as nat) + ", "@ + decimal(green as nat) + ", "@ + decimal(blue as nat) + ")"@
    }
}

fn hex_char(n: u8) -> (c: char)
    requires
        n < 16,
    ensures
        c == hex_digit(n as int),
{
    if n < 10 {
        (n + 48) as char
    } else {
        (n + 55) as char
    }
}

fn push_decimal(s: &mut String, n: u8)
    ensures
        final(s)@ == old(s)@ + decimal(n as nat),
{
    reveal_with_fuel(decimal, 3);
    if n >= 100 {
        push_char(s, ((n / 100) + 48) as char);
        push_char(s, (((n / 10) % 10) + 48) as char);
        push_char(s, ((n % 10) + 48) as char);
        assert(decimal(n as nat / 10) == decimal(n as nat / 100).push((((n as nat / 10) % 10) + 48) as char));
    } else if n >= 10 {
        push_char(s, ((n / 10) + 48) as char);
        push_char(s, ((n % 10) + 48) as char);
    } else {
        push_char(s, (n + 48) as char);
    }
    assert(s@ =~= old(s)@ + decimal(n as nat));
}

fn push_hex_byte(s: &mut String, b: u8)
    ensures
        final(s)@ == old(s)@ + hex_byte(b),
{
    push_char(s, hex_char(b / 16));
    push_char(s, hex_char(b % 16));
    assert(s@ =~= old(s)@ + hex_byte(b));
}

/// The text of a color with the given red, green and blue bytes: `#RRGGBB`
/// in upper-case hexadecimal, or `rgb(r, g, b)` in decimal.
pub fn color_to_string(red: u8, green: u8, blue: u8, is_hex: bool) -> (r: String)
    ensures
        r@ == color_text(red, green, blue, is_hex),
{
    if is_hex {
        let mut s = String::new();
        push_char(&mut s, '#');
        push_hex_byte(&mut s, red);
        push_hex_byte(&mut s, green);
        push_hex_byte(&mut s, blue);
        assert(s@ =~= color_text(red, green, blue, is_hex));
        s
    } else {
        let mut s = String::from_str("rgb(");
        push_decimal(&mut s, red);
        s.append(", ");
        push_decimal(&mut s, green);
        s.append(", ");
        push_decimal(&mut s, blue);
        s.append(")");
        assert(s@ =~= color_text(red, green, blue, is_hex));
        s
    }
}


/// The state of a color picker. `T` is the type of the instant at which the
/// color text was copied.
pub struct ColorPickerModel<H, C, T> {
    /// The color being edited.
    pub active_color: H,
    /// A color to save among the recent ones when editing resumes.
    pub save_next: Option<C>,
    /// The text of the color field.
    pub input_color: String,
    /// The color that was last applied.
    pub applied_color: Option<C>,
    /// The color that a reset applies.
    pub fallback_color: Option<C>,
    /// The recently used colors, the most recent saved one first.
    pub recent_colors: Vec<C>,
    /// Whether the picker is shown.
    pub active: bool,
    /// When the color text was copied, if since then nothing changed.
    pub copied_at: Option<T>,
    /// Whether the color field shows hexadecimal text.
    pub is_hex: bool,
    /// Whether the drawing of the color plane must be redone.
    pub must_clear_cache: bool,
}

/// A change to a color picker, with the color conversions it needs.
pub enum ColorPickerUpdate<H, C, T> {
    /// A color was picked on the plane; `rgb` holds its red, green and blue bytes.
    ActiveColor { color: H, rgb: (u8, u8, u8) },
    /// Picking on the plane ended; `active_as_color` is the active color converted.
    ActionFinished { active_as_color: C },
    /// The color field was edited; `parsed` is the color it names, if any.
    Input { text: String, parsed: Option<H> },
    /// The active color was applied; `active_as_color` is the active color converted.
    AppliedColor { active_as_color: C },
    /// The picker was reset; `fallback_as_hsv` is the fallback color (or black) converted.
    Reset { fallback_as_hsv: H },
    /// The text format was switched; `is_hex` tells the new one and
    /// `active_rgb` holds the red, green and blue bytes of the active color.
    ActivateSegmented { is_hex: bool, active_rgb: (u8, u8, u8) },
    /// The color text was copied at the given instant.
    Copied(T),
    /// Editing was cancelled.
    Cancel,
    /// The picker was shown or hidden.
    ToggleColorPicker,
}

/// The recent colors after saving `c`: it comes first, and at most
/// `MAX_RECENT` colors stay.
pub open spec fn recent_after_save<C>(recent: Seq<C>, c: C) -> Seq<C> {
    let s = seq![c] + recent;
    if s.len() > MAX_RECENT { s.take(MAX_RECENT as int) } else { s }
}

impl<H, C: Copy, T> ColorPickerModel<H, C, T> {
    /// Applies a change. Returns the text to write to the clipboard when the
    /// color text was copied.
    pub fn update(&mut self, update: ColorPickerUpdate<H, C, T>) -> (r: Option<String>)
        ensures
            match update {
                ColorPickerUpdate::ActiveColor { color, rgb } => {
                    &&& *final(self) == (ColorPickerModel {
                        must_clear_cache: true,
                        input_color: final(self).input_color,
                        recent_colors: final(self).recent_colors,
                        save_next: None,
                        active_color: color,
                        copied_at: None,
                        ..*old(self)
                    })
                    &&& final(self).input_color@ == color_text(rgb.0, rgb.1, rgb.2, old(self).is_hex)
                    &&& final(self).recent_colors@ == match old(self).save_next {
                        Some(c) => recent_after_save(old(self).recent_colors@, c),
                        None => old(self).recent_colors@,
                    }
                    &&& r is None
                },
                ColorPickerUpdate::AppliedColor { active_as_color } => {
                    &&& *final(self) == (ColorPickerModel {
                        recent_colors: final(self).recent_colors,
                        applied_color: Some(active_as_color),
                        active: false,
                        ..*old(self)
                    })
                    &&& final(self).recent_colors@ == match old(self).applied_color {
                        Some(c) => old(self).recent_colors@.push(c),
                        None => old(self).recent_colors@,
                    }
                    &&& r is None
                },
                ColorPickerUpdate::ActionFinished { active_as_color } => {
                    &&& *final(self) == (ColorPickerModel {
                        recent_colors: final(self).recent_colors,
                        applied_color: Some(active_as_color),
                        active: false,
                        save_next: Some(active_as_color),
                        ..*old(self)
                    })
                    &&& final(self).recent_colors@ == match old(self).applied_color {
                        Some(c) => old(self).recent_colors@.push(c),
                        None => old(self).recent_colors@,
                    }
                    &&& r is None
                },
                ColorPickerUpdate::ActivateSegmented { is_hex, active_rgb } => {
                    &&& *final(self) == (ColorPickerModel {
                        is_hex,
                        input_color: final(self).input_color,
                        copied_at: None,
                        ..*old(self)
                    })
                    &&& final(self).input_color@ == color_text(active_rgb.0, active_rgb.1, active_rgb.2, is_hex)
                    &&& r is None
                },
                ColorPickerUpdate::Copied(t) => {
                    &&& *final(self) == (ColorPickerModel { copied_at: Some(t), ..*old(self) })
                    &&& r == Some(old(self).input_color)
                },
                ColorPickerUpdate::Reset { fallback_as_hsv } => {
                    &&& *final(self) == (ColorPickerModel {
                        must_clear_cache: true,
                        active_color: fallback_as_hsv,
                        applied_color: old(self).fallback_color,
                        copied_at: None,
                        ..*old(self)
                    })
                    &&& r is None
                },
                ColorPickerUpdate::Cancel => {
                    &&& *final(self) == (ColorPickerModel {
                        must_clear_cache: true,
                        active: false,
                        copied_at: None,
                        ..*old(self)
                    })
                    &&& r is None
                },
                ColorPickerUpdate::Input { text, parsed } => {
                    &&& *final(self) == (ColorPickerModel {
                        must_clear_cache: true,
                        input_color: text,
                        copied_at: None,
                        active_color: match parsed {
                            Some(h) => h,
                            None => old(self).active_color,
                        },
                        ..*old(self)
                    })
                    &&& r is None
                },
                ColorPickerUpdate::ToggleColorPicker => {
                    &&& *final(self) == (ColorPickerModel {
                        must_clear_cache: true,
                        active: !old(self).active,
                        copied_at: None,
                        ..*old(self)
                    })
                    &&& r is None
                },
            },
            final(self).fallback_color == old(self).fallback_color,
    {
        match update {
            ColorPickerUpdate::ActiveColor { color, rgb } => {
                self.must_clear_cache = true;
                self.input_color = color_to_string(rgb.0, rgb.1, rgb.2, self.is_hex);
                match self.save_next.take() {
                    Some(to_save) => {
                        self.recent_colors.insert(0, to_save);
                        self.recent_colors.truncate(MAX_RECENT);
                        assert(old(self).recent_colors@.insert(0, to_save) =~= seq![to_save] + old(self).recent_colors@);
                    },
                    None => {},
                }
                self.active_color = color;
                self.copied_at = None;
                None
            },
            ColorPickerUpdate::AppliedColor { active_as_color } => {
                match self.applied_color.take() {
                    Some(applied) => self.recent_colors.push(applied),
                    None => {},
                }
                self.applied_color = Some(active_as_color);
                self.active = false;
                None
            },
            ColorPickerUpdate::ActivateSegmented { is_hex, active_rgb } => {
                self.is_hex = is_hex;
                self.input_color = color_to_string(active_rgb.0, active_rgb.1, active_rgb.2, self.is_hex);
                self.copied_at = None;
                None
            },
            ColorPickerUpdate::Copied(t) => {
                self.copied_at = Some(t);
                Some(self.input_color.clone())
            },
            ColorPickerUpdate::Reset { fallback_as_hsv } => {
                self.must_clear_cache = true;
                self.active_color = fallback_as_hsv;
                self.applied_color = self.fallback_color;
                self.copied_at = None;
                None
            },
            ColorPickerUpdate::Cancel => {
                self.must_clear_cache = true;
                self.active = false;
                self.copied_at = None;
                None
            },
            ColorPickerUpdate::Input { text, parsed } => {
                self.must_clear_cache = true;
                self.input_color = text;
                self.copied_at = None;
                match parsed {
                    Some(h) => self.active_color = h,
                    None => {},
                }
                None
            },
            ColorPickerUpdate::ActionFinished { active_as_color } => {
                match self.applied_color.take() {
                    Some(applied) => self.recent_colors.push(applied),
                    None => {},
                }
                self.applied_color = Some(active_as_color);
                self.active = false;
                self.save_next = Some(active_as_color);
                None
            },
            ColorPickerUpdate::ToggleColorPicker => {
                self.must_clear_cache = true;
                self.active = !self.active;
                self.copied_at = None;
                None
            },
        }
    }
}


impl<H, C: Copy, T> ColorPickerModel<H, C, T> {
    /// A hidden picker editing the initial color, else the fallback color
    /// (black when there is none, which the caller converts into
    /// `active_color` and `active_rgb`), with hexadecimal text.
    pub fn new(active_color: H, active_rgb: (u8, u8, u8), fallback_color: Option<C>, initial_color: Option<C>) -> (r: Self)
        ensures
            r.active_color == active_color,
            r.save_next is None,
            r.input_color@ == color_text(active_rgb.0, active_rgb.1, active_rgb.2, true),
            r.applied_color == match initial_color {
                Some(c) => Some(c),
                None => fallback_color,
            },
            r.fallback_color == fallback_color,
            r.recent_colors@.len() == 0,
            !r.active,
            r.copied_at is None,
            r.is_hex,
            !r.must_clear_cache,
    {
        let initial = match initial_color {
            Some(c) => Some(c),
            None => fallback_color,
        };
        ColorPickerModel {
            active_color,
            save_next: None,
            input_color: color_to_string(active_rgb.0, active_rgb.1, active_rgb.2, true),
            applied_color: initial,
            fallback_color,
            recent_colors: Vec::new(),
            active: false,
            copied_at: None,
            is_hex: true,
            must_clear_cache: false,
        }
    }

    /// Whether the color field shows hexadecimal text.
    pub fn is_hex(&self) -> (r: bool)
        ensures
            r == self.is_hex,
    {
        self.is_hex
    }

    /// Whether the picker should be visible.
    pub fn get_is_active(&self) -> (r: bool)
        ensures
            r == self.active,
    {
        self.active
    }

    /// The applied color of the picker.
    pub fn get_applied_color(&self) -> (r: Option<C>)
        ensures
            r == self.applied_color,
    {
        self.applied_color
    }
}

/// A saved color comes first among the recent colors, the others keep their
/// order after it, and no more than `MAX_RECENT` stay.
pub proof fn lemma_save_keeps_recent_bounded<C>(recent: Seq<C>, c: C)
    ensures
        recent.len() < MAX_RECENT ==> recent_after_save(recent, c).len() == recent.len() + 1,
        recent.len() + 1 >= MAX_RECENT ==> recent_after_save(recent, c).len() == MAX_RECENT,
        recent_after_save(recent, c)[0] == c,
        forall|i: int| 1 <= i < recent_after_save(recent, c).len() ==> #[trigger] recent_after_save(recent, c)[i] == recent[i - 1],
{
}

/// A hexadecimal text is seven characters long, a `#` and six hexadecimal digits.
pub proof fn lemma_hex_text_shape(red: u8, green: u8, blue: u8)
    ensures
        color_text(red, green, blue, true).len() == 7,
        color_text(red, green, blue, true)[0] == '#',
{
}


/// How long after a copy the copy button still says that the text was
/// copied, in nanoseconds.
pub const COPIED_NOTICE_NANOS: u128 = 2_000_000_000;

/// The tooltip of the button that copies the color text.
#[derive(Debug, Clone, Copy, PartialEq, Eq, Structural)]
pub enum CopyTooltip {
    /// No tooltip: the copy happened a while ago.
    Hidden,
    /// The tooltip says that the text was copied.
    Copied,
    /// The tooltip offers to copy the text.
    CopyToClipboard,
}

/// The tooltip of the copy button, from the time since the last copy, if
/// the text was copied since the color last changed.
pub open spec fn spec_copy_tooltip(copied_elapsed_nanos: Option<u128>) -> CopyTooltip {
    match copied_elapsed_nanos {
        Some(t) => if t > COPIED_NOTICE_NANOS { CopyTooltip::Hidden } else { CopyTooltip::Copied },
        None => CopyTooltip::CopyToClipboard,
    }
}

/// The tooltip of the copy button, as `spec_copy_tooltip` describes it.
pub fn copy_tooltip(copied_elapsed_nanos: Option<u128>) -> (r: CopyTooltip)
    ensures
        r == spec_copy_tooltip(copied_elapsed_nanos),
{
    match copied_elapsed_nanos {
        Some(t) => if t > COPIED_NOTICE_NANOS { CopyTooltip::Hidden } else { CopyTooltip::Copied },
        None => CopyTooltip::CopyToClipboard,
    }
}

/// The labels of a color picker's optional buttons, and what the picker
/// shows, taken from its state.
pub struct ColorPickerBuilder<L> {
    /// How many recent colors there are.
    pub recent_count: usize,
    /// Whether the text was copied since the color last changed.
    pub copied: bool,
    pub reset_label: Option<L>,
    pub save_label: Option<L>,
    pub cancel_label: Option<L>,
}

/// The optional parts of a color picker, under the plane, the hue slider
/// and the color field.
pub struct ColorPickerSections<L> {
    /// The tooltip of the copy button.
    pub copy_tooltip: CopyTooltip,
    /// Whether a separator, the label and a row of the recent colors follow.
    pub recent_colors: bool,
    /// The label of a reset button after a separator.
    pub reset: Option<L>,
    /// The labels of the cancel and the save button after a separator.
    pub cancel_save: Option<(L, L)>,
}

impl<H, C: Copy, T> ColorPickerModel<H, C, T> {
    /// A builder for the picker's view, with no optional buttons.
    pub fn builder<L>(&self) -> (r: ColorPickerBuilder<L>)
        ensures
            r.recent_count == self.recent_colors@.len(),
            r.copied == self.copied_at is Some,
            r.reset_label is None,
            r.save_label is None,
            r.cancel_label is None,
    {
        ColorPickerBuilder {
            recent_count: self.recent_colors.len(),
            copied: self.copied_at.is_some(),
            reset_label: None,
            save_label: None,
            cancel_label: None,
        }
    }
}

impl<L> ColorPickerBuilder<L> {
    /// Adds a reset button with the given label.
    pub fn reset_label(self, label: L) -> (r: Self)
        ensures
            r == (ColorPickerBuilder { reset_label: Some(label), ..self }),
    {
        ColorPickerBuilder { reset_label: Some(label), ..self }
    }

    /// Sets the label of the save button, shown with a cancel button.
    pub fn save_label(self, label: L) -> (r: Self)
        ensures
            r == (ColorPickerBuilder { save_label: Some(label), ..self }),
    {
        ColorPickerBuilder { save_label: Some(label), ..self }
    }

    /// Sets the label of the cancel button, shown with a save button.
    pub fn cancel_label(self, label: L) -> (r: Self)
        ensures
            r == (ColorPickerBuilder { cancel_label: Some(label), ..self }),
    {
        ColorPickerBuilder { cancel_label: Some(label), ..self }
    }

    /// What the picker shows. `copied_elapsed_nanos` is the time since the
    /// last copy, read only where the text was copied.
    ///
    /// The recent colors show when there are any; the reset button when it
    /// has a label; the cancel and save buttons only when both have one.
    pub fn build(self, copied_elapsed_nanos: u128) -> (r: ColorPickerSections<L>)
        ensures
            r.copy_tooltip == spec_copy_tooltip(if self.copied { Some(copied_elapsed_nanos) } else { None }),
            r.recent_colors == (self.recent_count > 0),
            r.reset == self.reset_label,
            r.cancel_save == (match (self.cancel_label, self.save_label) {
                (Some(c), Some(s)) => Some((c, s)),
                _ => None,
            }),
    {
        let elapsed = if self.copied { Some(copied_elapsed_nanos) } else { None };
        let ColorPickerBuilder { recent_count, copied, reset_label, save_label, cancel_label } = self;
        let cancel_save = match (cancel_label, save_label) {
            (Some(c), Some(s)) => Some((c, s)),
            _ => None,
        };
        ColorPickerSections {
            copy_tooltip: copy_tooltip(elapsed),
            recent_colors: recent_count > 0,
            reset: reset_label,
            cancel_save,
        }
    }
}


/// Whether a drag on the color plane is going on.
#[derive(Debug, Clone, Copy, PartialEq, Eq, Structural)]
pub struct PlaneState {
    pub dragging: bool,
}

/// An event as the color plane sees it. `H` is the color at a point of the
/// plane, worked out where the picker is drawn.
pub enum PlaneEvent<H> {
    /// The cursor moved or entered; `point` is the color under it, clamped
    /// to the plane, when the cursor's position is known.
    CursorMoved { point: Option<H> },
    /// The left button was released, or the cursor left the window.
    Released,
    /// The left button was pressed; `point` is the color under the cursor
    /// when it is over the plane.
    Pressed { point: Option<H> },
    /// Any other event.
    Other,
}

/// What the plane reports.
pub enum PlaneMessage<H> {
    /// A color was picked.
    ActiveColor(H),
    /// The drag ended.
    ActionFinished,
}

impl PlaneState {
    /// No drag going on.
    pub fn new() -> (r: Self)
        ensures
            !r.dragging,
    {
        PlaneState { dragging: false }
    }

    /// Whether an event goes to the picker's other controls first: only
    /// while no drag is going on.
    pub fn routes_to_children(&self) -> (r: bool)
        ensures
            r == !self.dragging,
    {
        !self.dragging
    }

    /// Handles an event; `child_captured` tells whether the picker's other
    /// controls took it, which is only asked while no drag is going on.
    ///
    /// During a drag, cursor motion picks the color under it and a release
    /// ends the drag; both are captured. Otherwise, an event the controls
    /// took stays theirs, and a press on the plane starts a drag, picking
    /// the color under it.
    pub fn on_event<H>(&mut self, event: PlaneEvent<H>, child_captured: bool) -> (r: (Option<PlaneMessage<H>>, EventStatus))
        ensures
            if old(self).dragging {
                match event {
                    PlaneEvent::CursorMoved { point } => {
                        &&& final(self).dragging
                        &&& r.0 == (match point {
                            Some(p) => Some(PlaneMessage::ActiveColor(p)),
                            None => None,
                        })
                        &&& r.1 == EventStatus::Captured
                    },
                    PlaneEvent::Released => !final(self).dragging && r.0 == Some(PlaneMessage::<H>::ActionFinished)
                        && r.1 == EventStatus::Captured,
                    _ => final(self).dragging && r.0 is None && r.1 == EventStatus::Ignored,
                }
            } else if child_captured {
                !final(self).dragging && r.0 is None && r.1 == EventStatus::Captured
            } else {
                match event {
                    PlaneEvent::Pressed { point: Some(p) } => final(self).dragging
                        && r.0 == Some(PlaneMessage::ActiveColor(p)) && r.1 == EventStatus::Captured,
                    _ => !final(self).dragging && r.0 is None && r.1 == EventStatus::Ignored,
                }
            },
    {
        if self.dragging {
            return match event {
                PlaneEvent::CursorMoved { point } => {
                    let m = match point {
                        Some(p) => Some(PlaneMessage::ActiveColor(p)),
                        None => None,
                    };
                    (m, EventStatus::Captured)
                },
                PlaneEvent::Released => {
                    self.dragging = false;
                    (Some(PlaneMessage::ActionFinished), EventStatus::Captured)
                },
                _ => (None, EventStatus::Ignored),
            };
        }
        if child_captured {
            return (None, EventStatus::Captured);
        }
        match event {
            PlaneEvent::Pressed { point: Some(p) } => {
                self.dragging = true;
                (Some(PlaneMessage::ActiveColor(p)), EventStatus::Captured)
            },
            _ => (None, EventStatus::Ignored),
        }
    }
}

} // verus!
