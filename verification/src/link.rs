//! Hyperlink buttons: a label, optionally followed by an external-link icon,
//! with an optional tooltip.

use vstd::prelude::*;

verus! {

/// The variant of a button that is a hyperlink.
#[derive(Debug, Clone, Copy, PartialEq, Eq, Structural)]
pub struct Hyperlink {
    /// Whether an external-link icon follows the label.
    pub trailing_icon: bool,
}

/// A hyperlink button producing messages `M`.
pub struct LinkButton<M> {
    pub label: String,
    pub tooltip: String,
    /// The message of a press; without one the button is disabled.
    pub on_press: Option<M>,
    pub padding: u16,
    pub spacing: u16,
    pub icon_size: u16,
    pub line_height: u16,
    pub font_size: u16,
    pub variant: Hyperlink,
}

/// A hyperlink button with the given label: no tooltip, no message, padding
/// 4, icons of 16, lines of 20, text of 14, no trailing icon.
pub fn link<M>(label: String) -> (r: LinkButton<M>)
    ensures
        r.label == label,
        r.tooltip@.len() == 0,
        r.on_press is None,
        r.padding == 4 && r.spacing == 0 && r.icon_size == 16 && r.line_height == 20 && r.font_size == 14,
        !r.variant.trailing_icon,
{
    LinkButton::new(label, Hyperlink { trailing_icon: false })
}

/// A hyperlink button with an empty label and no padding.
pub fn hyperlink<M>() -> (r: LinkButton<M>)
    ensures
        r.label@.len() == 0,
        r.tooltip@.len() == 0,
        r.on_press is None,
        r.padding == 0 && r.spacing == 0 && r.icon_size == 16 && r.line_height == 20 && r.font_size == 14,
        !r.variant.trailing_icon,
{
    let b = LinkButton::new(String::new(), Hyperlink { trailing_icon: false });
    LinkButton { padding: 0, ..b }
}

impl<M> LinkButton<M> {
    /// A hyperlink button with the given label and variant.
    pub fn new(label: String, link: Hyperlink) -> (r: Self)
        ensures
            r.label == label,
            r.tooltip@.len() == 0,
            r.on_press is None,
            r.padding == 4 && r.spacing == 0 && r.icon_size == 16 && r.line_height == 20 && r.font_size == 14,
            r.variant == link,
    {
        LinkButton {
            label,
            tooltip: String::new(),
            on_press: None,
            padding: 4,
            spacing: 0,
            icon_size: 16,
            line_height: 20,
            font_size: 14,
            variant: link,
        }
    }

    /// Adds the trailing external-link icon.
    pub fn with_icon(self) -> (r: Self)
        ensures
            r == (LinkButton { variant: Hyperlink { trailing_icon: true }, ..self }),
    {
        LinkButton { variant: Hyperlink { trailing_icon: true }, ..self }
    }

    /// Sets whether the trailing external-link icon is shown.
    pub fn trailing_icon(self, set: bool) -> (r: Self)
        ensures
            r == (LinkButton { variant: Hyperlink { trailing_icon: set }, ..self }),
    {
        LinkButton { variant: Hyperlink { trailing_icon: set }, ..self }
    }

    /// Sets the tooltip.
    pub fn tooltip(self, tooltip: String) -> (r: Self)
        ensures
            r == (LinkButton { tooltip, ..self }),
    {
        LinkButton { tooltip, ..self }
    }

    /// Sets the message of a press, or disables the button with none.
    pub fn on_press_maybe(self, on_press: Option<M>) -> (r: Self)
        ensures
            r == (LinkButton { on_press, ..self }),
    {
        LinkButton { on_press, ..self }
    }

    /// Whether the button is wrapped in a tooltip: only when the tooltip is not empty.
    pub fn shows_tooltip(&self) -> (r: bool)
        ensures
            r == (self.tooltip@.len() > 0),
    {
        !self.tooltip.as_str().is_empty()
    }
}

} // verus!
