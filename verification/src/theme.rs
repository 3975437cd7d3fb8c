//! The theme's variant and layer, and the style classes of the theme.

use vstd::prelude::*;

verus! {

/// The style class of a checkbox.
#[derive(Debug, Clone, Copy, PartialEq, Eq, Structural)]
pub enum Checkbox {
    Primary,
    Secondary,
    Success,
    Danger,
}

impl Default for Checkbox {
    /// The primary style.
    fn default() -> (r: Self)
        ensures
            r == Checkbox::Primary,
    {
        Checkbox::Primary
    }
}

/// The style class of a scrollable area.
#[derive(Debug, Clone, Copy, PartialEq, Eq, Structural)]
pub enum Scrollable {
    /// The scrollbar is always shown.
    Permanent,
    /// The scrollbar is thin until used.
    Minimal,
}

impl Default for Scrollable {
    /// The permanent style.
    fn default() -> (r: Self)
        ensures
            r == Scrollable::Permanent,
    {
        Scrollable::Permanent
    }
}

/// The style class of a tooltip.
#[derive(Debug, Clone, Copy, PartialEq, Eq, Structural)]
pub enum Tooltip {
    Default,
}

impl Default for Tooltip {
    /// The default style.
    fn default() -> (r: Self)
        ensures
            r == Tooltip::Default,
    {
        Tooltip::Default
    }
}


/// Which theme is in use; `T` holds a custom theme.
#[derive(Debug, Clone, PartialEq, Eq)]
pub enum ThemeType<T> {
    Dark,
    Light,
    HighContrastDark,
    HighContrastLight,
    Custom(T),
}

/// The layer of a container, each with its own colors.
#[derive(Debug, Clone, Copy, PartialEq, Eq, Structural)]
pub enum Layer {
    Background,
    Primary,
    Secondary,
}

/// The theme: its variant, and the layer that the widget being styled
/// stands on.
#[derive(Debug, Clone, PartialEq, Eq)]
pub struct Theme<T> {
    pub theme_type: ThemeType<T>,
    pub layer: Layer,
}

impl<T> Theme<T> {
    fn of(theme_type: ThemeType<T>) -> (r: Self)
        ensures
            r == (Theme { theme_type, layer: Layer::Background }),
    {
        Theme { theme_type, layer: Layer::Background }
    }

    /// The dark theme, on the background layer.
    pub fn dark() -> (r: Self)
        ensures
            r == (Theme::<T> { theme_type: ThemeType::Dark, layer: Layer::Background }),
    {
        Self::of(ThemeType::Dark)
    }

    /// The light theme, on the background layer.
    pub fn light() -> (r: Self)
        ensures
            r == (Theme::<T> { theme_type: ThemeType::Light, layer: Layer::Background }),
    {
        Self::of(ThemeType::Light)
    }

    /// The high-contrast dark theme, on the background layer.
    pub fn dark_hc() -> (r: Self)
        ensures
            r == (Theme::<T> { theme_type: ThemeType::HighContrastDark, layer: Layer::Background }),
    {
        Self::of(ThemeType::HighContrastDark)
    }

    /// The high-contrast light theme, on the background layer.
    pub fn light_hc() -> (r: Self)
        ensures
            r == (Theme::<T> { theme_type: ThemeType::HighContrastLight, layer: Layer::Background }),
    {
        Self::of(ThemeType::HighContrastLight)
    }

    /// A custom theme, on the background layer.
    pub fn custom(theme: T) -> (r: Self)
        ensures
            r == (Theme { theme_type: ThemeType::Custom(theme), layer: Layer::Background }),
    {
        Self::of(ThemeType::Custom(theme))
    }

    /// Moves the theme to another layer.
    pub fn set_layer(&mut self, layer: Layer)
        ensures
            final(self).layer == layer,
            final(self).theme_type == old(self).theme_type,
    {
        self.layer = layer;
    }

    /// The container whose colors a widget on the current layer uses.
    pub fn current_container(&self) -> (r: Layer)
        ensures
            r == self.layer,
    {
        self.layer
    }
}


/// How a vector image is filled.
#[derive(Debug, Clone, Copy, PartialEq, Eq, Structural)]
pub enum Svg {
    /// No filtering is applied.
    Default,
    /// The fill matches the text color.
    Symbolic,
    /// The fill matches the accent color.
    SymbolicActive,
    /// The fill matches the color on primary.
    SymbolicPrimary,
    /// The fill uses the accent color, as a link.
    SymbolicLink,
}

impl Default for Svg {
    /// No filtering.
    fn default() -> (r: Self)
        ensures
            r == Svg::Default,
    {
        Svg::Default
    }
}

} // verus!
