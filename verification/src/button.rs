//! Button builders: text buttons with optional icons, icon buttons with
//! size presets, and image buttons; and what each shows.
//!
//! Sizes that come from the theme are handed in as `ButtonSpacing`.

use vstd::prelude::*;
use crate::dnd_destination::Id;
use crate::icon::Handle;

verus! {

/// The style class of a button.
#[derive(Debug, Clone, Copy, PartialEq, Eq, Structural)]
pub enum ButtonClass {
    AppletIcon,
    AppletMenu,
    Destructive,
    HeaderBar,
    Icon,
    IconVertical,
    Image,
    Link,
    ListItem,
    MenuFolder,
    MenuItem,
    MenuRoot,
    NavToggle,
    Standard,
    Suggested,
    Text,
    Transparent,
}

/// The weight of a font.
#[derive(Debug, Clone, Copy, PartialEq, Eq, Structural)]
pub enum FontWeight {
    Thin,
    ExtraLight,
    Light,
    Normal,
    Medium,
    Semibold,
    Bold,
    ExtraBold,
    Black,
}

/// How much room a button takes along one axis.
#[derive(Debug, Clone, Copy, PartialEq, Eq, Structural)]
pub enum Length {
    Fill,
    FillPortion(u16),
    Shrink,
    /// A fixed number of logical pixels.
    Fixed(u32),
}

/// The spacings of the theme that buttons use.
#[derive(Debug, Clone, Copy, PartialEq, Eq, Structural)]
pub struct ButtonSpacing {
    pub space_xxxs: u16,
    pub space_xxs: u16,
    pub space_xs: u16,
    pub space_s: u16,
    pub space_l: u16,
}

/// A button being built, producing messages `M`; `V` is its variant.
pub struct Builder<M, V> {
    pub id: Id,
    pub label: String,
    pub tooltip: String,
    /// The message of a press; without one the button is disabled.
    pub on_press: Option<M>,
    pub width: Length,
    pub height: Length,
    /// Top, right, bottom and left padding.
    pub padding: [u16; 4],
    pub spacing: u16,
    pub icon_size: u16,
    pub line_height: u16,
    pub font_size: u16,
    pub font_weight: FontWeight,
    pub class: ButtonClass,
    pub variant: V,
}

/// The padding of `n` on every side.
pub open spec fn even(n: u16) -> [u16; 4] {
    [n, n, n, n]
}

impl<M, V> Builder<M, V> {
    /// Sets the identifier.
    pub fn id(self, id: Id) -> (r: Self)
        ensures
            r == (Builder { id, ..self }),
    {
        Builder { id, ..self }
    }

    /// Sets the label.
    pub fn label(self, label: String) -> (r: Self)
        ensures
            r == (Builder { label, ..self }),
    {
        Builder { label, ..self }
    }

    /// Sets the tooltip.
    pub fn tooltip(self, tooltip: String) -> (r: Self)
        ensures
            r == (Builder { tooltip, ..self }),
    {
        Builder { tooltip, ..self }
    }

    /// Sets the message of a press.
    pub fn on_press(self, on_press: M) -> (r: Self)
        ensures
            r == (Builder { on_press: Some(on_press), ..self }),
    {
        Builder { on_press: Some(on_press), ..self }
    }

    /// Sets the message of a press, or disables the button with none.
    pub fn on_press_maybe(self, on_press: Option<M>) -> (r: Self)
        ensures
            r == (Builder { on_press, ..self }),
    {
        Builder { on_press, ..self }
    }

    /// Sets the width.
    pub fn width(self, width: Length) -> (r: Self)
        ensures
            r == (Builder { width, ..self }),
    {
        Builder { width, ..self }
    }

    /// Sets the height.
    pub fn height(self, height: Length) -> (r: Self)
        ensures
            r == (Builder { height, ..self }),
    {
        Builder { height, ..self }
    }

    /// Sets the padding: top, right, bottom, left.
    pub fn padding(self, padding: [u16; 4]) -> (r: Self)
        ensures
            r == (Builder { padding, ..self }),
    {
        Builder { padding, ..self }
    }

    /// Sets the spacing between the elements of the button.
    pub fn spacing(self, spacing: u16) -> (r: Self)
        ensures
            r == (Builder { spacing, ..self }),
    {
        Builder { spacing, ..self }
    }

    /// Sets the size of icons.
    pub fn icon_size(self, icon_size: u16) -> (r: Self)
        ensures
            r == (Builder { icon_size, ..self }),
    {
        Builder { icon_size, ..self }
    }

    /// Sets the line height of the label.
    pub fn line_height(self, line_height: u16) -> (r: Self)
        ensures
            r == (Builder { line_height, ..self }),
    {
        Builder { line_height, ..self }
    }

    /// Sets the font size of the label.
    pub fn font_size(self, font_size: u16) -> (r: Self)
        ensures
            r == (Builder { font_size, ..self }),
    {
        Builder { font_size, ..self }
    }

    /// Sets the font weight of the label.
    pub fn font_weight(self, font_weight: FontWeight) -> (r: Self)
        ensures
            r == (Builder { font_weight, ..self }),
    {
        Builder { font_weight, ..self }
    }

    /// Sets the style class.
    pub fn class(self, class: ButtonClass) -> (r: Self)
        ensures
            r == (Builder { class, ..self }),
    {
        Builder { class, ..self }
    }

    /// Whether the button is wrapped in a tooltip: only when the tooltip is
    /// not empty.
    pub fn shows_tooltip(&self) -> (r: bool)
        ensures
            r == (self.tooltip@.len() > 0),
    {
        !self.tooltip.as_str().is_empty()
    }

    /// Whether the label is shown: only when it is not empty.
    pub fn shows_label(&self) -> (r: bool)
        ensures
            r == (self.label@.len() > 0),
    {
        !self.label.as_str().is_empty()
    }
}

/// The text variant of a button: optional icons before and after the label.
pub struct Text {
    pub leading_icon: Option<Handle>,
    pub trailing_icon: Option<Handle>,
}

impl Text {
    /// No icons.
    pub fn new() -> (r: Self)
        ensures
            r.leading_icon is None,
            r.trailing_icon is None,
    {
        Text { leading_icon: None, trailing_icon: None }
    }
}

/// The fields that every text button starts with, but for its label and
/// style: no tooltip or message, shrinking width, the theme's large spacing
/// as height, small horizontal padding, icons of 16, lines of 20, text of 14.
pub open spec fn text_defaults<M>(b: Builder<M, Text>, id: Id, text: Text, spacing: ButtonSpacing) -> bool {
    &&& b.id == id
    &&& b.tooltip@.len() == 0
    &&& b.on_press is None
    &&& b.width == Length::Shrink
    &&& b.height == Length::Fixed(spacing.space_l as u32)
    &&& b.padding == [0u16, spacing.space_s, 0u16, spacing.space_s]
    &&& b.spacing == spacing.space_xxxs
    &&& b.icon_size == 16 && b.line_height == 20 && b.font_size == 14
    &&& b.font_weight == FontWeight::Normal
    &&& b.variant == text
}

impl<M> Builder<M, Text> {
    /// A text button with the given variant, no label and the standard style.
    pub fn new(text: Text, id: Id, spacing: ButtonSpacing) -> (r: Self)
        ensures
            text_defaults(r, id, text, spacing),
            r.label@.len() == 0,
            r.class == ButtonClass::Standard,
    {
        Builder {
            id,
            label: String::new(),
            tooltip: String::new(),
            on_press: None,
            width: Length::Shrink,
            height: Length::Fixed(spacing.space_l as u32),
            padding: [0u16, spacing.space_s, 0u16, spacing.space_s],
            spacing: spacing.space_xxxs,
            icon_size: 16,
            line_height: 20,
            font_size: 14,
            font_weight: FontWeight::Normal,
            class: ButtonClass::Standard,
            variant: text,
        }
    }

    /// Puts an icon before the label.
    pub fn leading_icon(self, icon: Handle) -> (r: Self)
        ensures
            r == (Builder { variant: Text { leading_icon: Some(icon), trailing_icon: self.variant.trailing_icon }, ..self }),
    {
        let Builder { id, label, tooltip, on_press, width, height, padding, spacing, icon_size, line_height, font_size, font_weight, class, variant } = self;
        Builder {
            id, label, tooltip, on_press, width, height, padding, spacing, icon_size, line_height, font_size, font_weight, class,
            variant: Text { leading_icon: Some(icon), trailing_icon: variant.trailing_icon },
        }
    }

    /// Puts an icon after the label.
    pub fn trailing_icon(self, icon: Handle) -> (r: Self)
        ensures
            r == (Builder { variant: Text { leading_icon: self.variant.leading_icon, trailing_icon: Some(icon) }, ..self }),
    {
        let Builder { id, label, tooltip, on_press, width, height, padding, spacing, icon_size, line_height, font_size, font_weight, class, variant } = self;
        Builder {
            id, label, tooltip, on_press, width, height, padding, spacing, icon_size, line_height, font_size, font_weight, class,
            variant: Text { leading_icon: variant.leading_icon, trailing_icon: Some(icon) },
        }
    }
}

/// A text button with the given label and style.
fn styled<M>(label: String, class: ButtonClass, id: Id, spacing: ButtonSpacing) -> (r: Builder<M, Text>)
    ensures
        text_defaults(r, id, Text { leading_icon: None, trailing_icon: None }, spacing),
        r.label == label,
        r.class == class,
{
    let b = Builder::<M, Text>::new(Text::new(), id, spacing);
    Builder { label, class, ..b }
}

/// A text button with the destructive style.
pub fn destructive<M>(label: String, id: Id, spacing: ButtonSpacing) -> (r: Builder<M, Text>)
    ensures
        text_defaults(r, id, Text { leading_icon: None, trailing_icon: None }, spacing),
        r.label == label,
        r.class == ButtonClass::Destructive,
{
    styled(label, ButtonClass::Destructive, id, spacing)
}

/// A text button with the suggested style.
pub fn suggested<M>(label: String, id: Id, spacing: ButtonSpacing) -> (r: Builder<M, Text>)
    ensures
        text_defaults(r, id, Text { leading_icon: None, trailing_icon: None }, spacing),
        r.label == label,
        r.class == ButtonClass::Suggested,
{
    styled(label, ButtonClass::Suggested, id, spacing)
}

/// A text button with the standard style.
pub fn standard<M>(label: String, id: Id, spacing: ButtonSpacing) -> (r: Builder<M, Text>)
    ensures
        text_defaults(r, id, Text { leading_icon: None, trailing_icon: None }, spacing),
        r.label == label,
        r.class == ButtonClass::Standard,
{
    styled(label, ButtonClass::Standard, id, spacing)
}

/// A text button with the text style.
pub fn text<M>(label: String, id: Id, spacing: ButtonSpacing) -> (r: Builder<M, Text>)
    ensures
        text_defaults(r, id, Text { leading_icon: None, trailing_icon: None }, spacing),
        r.label == label,
        r.class == ButtonClass::Text,
{
    styled(label, ButtonClass::Text, id, spacing)
}

/// The icon variant of a button. `symbolic` tells whether the icon is a
/// symbolic one, which is drawn smaller.
pub struct Icon {
    pub handle: Handle,
    pub symbolic: bool,
    pub vertical: bool,
    pub selected: bool,
}

/// A size preset of an icon button: font size, font weight, icon size,
/// line height, padding and spacing.
pub struct SizePreset {
    pub font_size: u16,
    pub font_weight: FontWeight,
    pub icon_size: u16,
    pub line_height: u16,
    pub padding: u16,
    pub spacing: u16,
}

/// Whether `b` is `old` with the preset applied.
pub open spec fn with_preset<M>(b: Builder<M, Icon>, old: Builder<M, Icon>, p: SizePreset) -> bool {
    b == (Builder {
        font_size: p.font_size,
        font_weight: p.font_weight,
        icon_size: p.icon_size,
        line_height: p.line_height,
        padding: even(p.padding),
        spacing: p.spacing,
        ..old
    })
}

/// A button showing an icon, with icon button styling.
pub fn icon<M>(handle: Handle, symbolic: bool, id: Id, spacing: ButtonSpacing) -> (r: Builder<M, Icon>)
    ensures
        r.id == id,
        r.label@.len() == 0 && r.tooltip@.len() == 0,
        r.on_press is None,
        r.width == Length::Shrink && r.height == Length::Shrink,
        r.padding == even(spacing.space_xxs),
        r.spacing == spacing.space_xxxs,
        r.icon_size == (if symbolic { 16u16 } else { 24u16 }),
        r.line_height == 20 && r.font_size == 14,
        r.font_weight == FontWeight::Normal,
        r.class == ButtonClass::Icon,
        r.variant == (Icon { handle, symbolic, vertical: false, selected: false }),
{
    Builder::<M, Icon>::new(Icon { handle, symbolic, vertical: false, selected: false }, id, spacing)
}

impl<M> Builder<M, Icon> {
    /// An icon button with the given variant: padding of the theme's extra
    /// extra small spacing, icons of 16 when symbolic and 24 otherwise.
    pub fn new(icon: Icon, id: Id, spacing: ButtonSpacing) -> (r: Self)
        ensures
            r.id == id,
            r.label@.len() == 0 && r.tooltip@.len() == 0,
            r.on_press is None,
            r.width == Length::Shrink && r.height == Length::Shrink,
            r.padding == even(spacing.space_xxs),
            r.spacing == spacing.space_xxxs,
            r.icon_size == (if icon.symbolic { 16u16 } else { 24u16 }),
            r.line_height == 20 && r.font_size == 14,
            r.font_weight == FontWeight::Normal,
            r.class == ButtonClass::Icon,
            r.variant == icon,
    {
        let p = spacing.space_xxs;
        Builder {
            id,
            label: String::new(),
            tooltip: String::new(),
            on_press: None,
            width: Length::Shrink,
            height: Length::Shrink,
            padding: [p, p, p, p],
            spacing: spacing.space_xxxs,
            icon_size: if icon.symbolic { 16 } else { 24 },
            line_height: 20,
            font_size: 14,
            font_weight: FontWeight::Normal,
            class: ButtonClass::Icon,
            variant: icon,
        }
    }

    fn apply_preset(self, p: SizePreset) -> (r: Self)
        ensures
            with_preset(r, self, p),
    {
        let pad = p.padding;
        Builder {
            font_size: p.font_size,
            font_weight: p.font_weight,
            icon_size: p.icon_size,
            line_height: p.line_height,
            padding: [pad, pad, pad, pad],
            spacing: p.spacing,
            ..self
        }
    }

    /// The extra small size preset.
    pub fn extra_small(self, spacing: ButtonSpacing) -> (r: Self)
        ensures
            with_preset(r, self, SizePreset {
                font_size: 14, font_weight: FontWeight::Normal, icon_size: 16, line_height: 20,
                padding: spacing.space_xxs, spacing: spacing.space_xxxs,
            }),
    {
        self.apply_preset(SizePreset {
            font_size: 14, font_weight: FontWeight::Normal, icon_size: 16, line_height: 20,
            padding: spacing.space_xxs, spacing: spacing.space_xxxs,
        })
    }

    /// The medium size preset.
    pub fn medium(self, spacing: ButtonSpacing) -> (r: Self)
        ensures
            with_preset(r, self, SizePreset {
                font_size: 24, font_weight: FontWeight::Normal, icon_size: 32, line_height: 32,
                padding: spacing.space_xs, spacing: spacing.space_xxs,
            }),
    {
        self.apply_preset(SizePreset {
            font_size: 24, font_weight: FontWeight::Normal, icon_size: 32, line_height: 32,
            padding: spacing.space_xs, spacing: spacing.space_xxs,
        })
    }

    /// The large size preset.
    pub fn large(self, spacing: ButtonSpacing) -> (r: Self)
        ensures
            with_preset(r, self, SizePreset {
                font_size: 28, font_weight: FontWeight::Normal, icon_size: 40, line_height: 36,
                padding: spacing.space_xs, spacing: spacing.space_xxs,
            }),
    {
        self.apply_preset(SizePreset {
            font_size: 28, font_weight: FontWeight::Normal, icon_size: 40, line_height: 36,
            padding: spacing.space_xs, spacing: spacing.space_xxs,
        })
    }

    /// The extra large size preset, with a light font.
    pub fn extra_large(self, spacing: ButtonSpacing) -> (r: Self)
        ensures
            with_preset(r, self, SizePreset {
                font_size: 32, font_weight: FontWeight::Light, icon_size: 56, line_height: 44,
                padding: spacing.space_xs, spacing: spacing.space_xxs,
            }),
    {
        self.apply_preset(SizePreset {
            font_size: 32, font_weight: FontWeight::Light, icon_size: 56, line_height: 44,
            padding: spacing.space_xs, spacing: spacing.space_xxs,
        })
    }

    /// Sets whether the button is drawn as selected.
    pub fn selected(self, selected: bool) -> (r: Self)
        ensures
            r.variant == (Icon { selected, ..self.variant }),
            r == (Builder { variant: r.variant, ..self }),
    {
        let Builder { id, label, tooltip, on_press, width, height, padding, spacing, icon_size, line_height, font_size, font_weight, class, variant } = self;
        Builder {
            id, label, tooltip, on_press, width, height, padding, spacing, icon_size, line_height, font_size, font_weight, class,
            variant: Icon { selected, ..variant },
        }
    }

    /// Sets whether the label goes under the icon; this switches to the
    /// vertical icon style.
    pub fn vertical(self, vertical: bool) -> (r: Self)
        ensures
            r.variant == (Icon { vertical, ..self.variant }),
            r.class == ButtonClass::IconVertical,
            r == (Builder { variant: r.variant, class: ButtonClass::IconVertical, ..self }),
    {
        let Builder { id, label, tooltip, on_press, width, height, padding, spacing, icon_size, line_height, font_size, font_weight, class, variant } = self;
        Builder {
            id, label, tooltip, on_press, width, height, padding, spacing, icon_size, line_height, font_size, font_weight,
            class: ButtonClass::IconVertical,
            variant: Icon { vertical, ..variant },
        }
    }
}

/// The image variant of a button: the image `I`, whether it is drawn as
/// selected, and the message of its remove control.
pub struct Image<I, M> {
    pub image: I,
    pub selected: bool,
    pub on_remove: Option<M>,
}

/// A button showing an image, with image button styling.
pub fn image<I, M>(content: I, id: Id) -> (r: Builder<M, Image<I, M>>)
    ensures
        r.id == id,
        r.label@.len() == 0 && r.tooltip@.len() == 0,
        r.on_press is None,
        r.width == Length::Shrink && r.height == Length::Shrink,
        r.padding == even(0),
        r.spacing == 0 && r.icon_size == 16 && r.line_height == 20 && r.font_size == 14,
        r.font_weight == FontWeight::Normal,
        r.class == ButtonClass::Image,
        r.variant.image == content,
        !r.variant.selected,
        r.variant.on_remove is None,
{
    Builder::<M, Image<I, M>>::new(Image { image: content, selected: false, on_remove: None }, id)
}

impl<I, M> Builder<M, Image<I, M>> {
    /// An image button with the given variant and no padding or spacing.
    pub fn new(variant: Image<I, M>, id: Id) -> (r: Self)
        ensures
            r.id == id,
            r.label@.len() == 0 && r.tooltip@.len() == 0,
            r.on_press is None,
            r.width == Length::Shrink && r.height == Length::Shrink,
            r.padding == even(0),
            r.spacing == 0 && r.icon_size == 16 && r.line_height == 20 && r.font_size == 14,
            r.font_weight == FontWeight::Normal,
            r.class == ButtonClass::Image,
            r.variant == variant,
    {
        Builder {
            id,
            label: String::new(),
            tooltip: String::new(),
            on_press: None,
            width: Length::Shrink,
            height: Length::Shrink,
            padding: [0u16, 0u16, 0u16, 0u16],
            spacing: 0,
            icon_size: 16,
            line_height: 20,
            font_size: 14,
            font_weight: FontWeight::Normal,
            class: ButtonClass::Image,
            variant,
        }
    }

    /// Sets the message of the remove control.
    pub fn on_remove(self, message: M) -> (r: Self)
        ensures
            r.variant == (Image { on_remove: Some(message), ..self.variant }),
            r == (Builder { variant: r.variant, ..self }),
    {
        self.on_remove_maybe(Some(message))
    }

    /// Sets or clears the message of the remove control.
    pub fn on_remove_maybe(self, message: Option<M>) -> (r: Self)
        ensures
            r.variant == (Image { on_remove: message, ..self.variant }),
            r == (Builder { variant: r.variant, ..self }),
    {
        let Builder { id, label, tooltip, on_press, width, height, padding, spacing, icon_size, line_height, font_size, font_weight, class, variant } = self;
        Builder {
            id, label, tooltip, on_press, width, height, padding, spacing, icon_size, line_height, font_size, font_weight, class,
            variant: Image { on_remove: message, ..variant },
        }
    }

    /// Sets whether the button is drawn as selected.
    pub fn selected(self, selected: bool) -> (r: Self)
        ensures
            r.variant == (Image { selected, ..self.variant }),
            r == (Builder { variant: r.variant, ..self }),
    {
        let Builder { id, label, tooltip, on_press, width, height, padding, spacing, icon_size, line_height, font_size, font_weight, class, variant } = self;
        Builder {
            id, label, tooltip, on_press, width, height, padding, spacing, icon_size, line_height, font_size, font_weight, class,
            variant: Image { selected, ..variant },
        }
    }
}


/// A part of what a button shows.
#[derive(Debug, Clone, Copy, PartialEq, Eq, Structural)]
pub enum ButtonPart {
    /// The icon before the label.
    LeadingIcon,
    /// The icon of an icon button, at the button's icon size.
    Icon,
    /// The label, at the button's font size, line height and weight.
    Label,
    /// The icon after the label.
    TrailingIcon,
}

/// A part, where it is shown.
pub open spec fn part_if(shown: bool, part: ButtonPart) -> Seq<ButtonPart> {
    if shown { seq![part] } else { Seq::empty() }
}

/// The parts of a text button, in a row: the leading icon, the label when
/// it is not empty, the trailing icon.
pub open spec fn text_parts<M>(b: Builder<M, Text>) -> Seq<ButtonPart> {
    part_if(b.variant.leading_icon is Some, ButtonPart::LeadingIcon)
        + part_if(b.label@.len() > 0, ButtonPart::Label)
        + part_if(b.variant.trailing_icon is Some, ButtonPart::TrailingIcon)
}

/// The parts of an icon button: the icon, then the label when it is not
/// empty; in a column when the button is vertical, else in a row.
pub open spec fn icon_parts<M>(b: Builder<M, Icon>) -> Seq<ButtonPart> {
    seq![ButtonPart::Icon] + part_if(b.label@.len() > 0, ButtonPart::Label)
}

fn push_if(v: &mut Vec<ButtonPart>, shown: bool, part: ButtonPart)
    ensures
        final(v)@ == old(v)@ + part_if(shown, part),
{
    if shown {
        v.push(part);
    }
    assert(final(v)@ =~= old(v)@ + part_if(shown, part));
}

impl<M> Builder<M, Text> {
    /// The parts that the button shows, in order.
    pub fn parts(&self) -> (r: Vec<ButtonPart>)
        ensures
            r@ == text_parts(*self),
    {
        let mut v: Vec<ButtonPart> = Vec::new();
        push_if(&mut v, self.variant.leading_icon.is_some(), ButtonPart::LeadingIcon);
        push_if(&mut v, !self.label.as_str().is_empty(), ButtonPart::Label);
        push_if(&mut v, self.variant.trailing_icon.is_some(), ButtonPart::TrailingIcon);
        assert(v@ =~= text_parts(*self));
        v
    }
}

impl<M> Builder<M, Icon> {
    /// The parts that the button shows, in order.
    pub fn parts(&self) -> (r: Vec<ButtonPart>)
        ensures
            r@ == icon_parts(*self),
    {
        let mut v: Vec<ButtonPart> = Vec::new();
        v.push(ButtonPart::Icon);
        push_if(&mut v, !self.label.as_str().is_empty(), ButtonPart::Label);
        assert(v@ =~= icon_parts(*self));
        v
    }
}

} // verus!
