//! A context drawer: a pane with a header, scrollable contents and an
//! optional footer, attached to the side of a view.
//!
//! The pane is described by a plan over elements `E` and messages `M`; the
//! spacings are the theme's, handed in by the caller.

use vstd::prelude::*;
use crate::dnd_destination::Id;

verus! {

/// The width below which a drawer counts as narrow and gets small side padding.
pub const NARROW_WIDTH: u32 = 392;

/// The name of the icon beside the close button's label.
pub fn close_icon_name() -> (r: &'static str)
    ensures
        r@ == "go-next-symbolic"@,
{
    "go-next-symbolic"
}

/// The spacings of the theme that a drawer uses.
#[derive(Debug, Clone, Copy, PartialEq, Eq, Structural)]
pub struct DrawerSpacing {
    pub space_xxs: u16,
    pub space_s: u16,
    pub space_m: u16,
    pub space_l: u16,
}

/// What stands at the start of the header row, before the close button.
pub enum HeaderSlot<E> {
    /// The actions, filling the row.
    Actions(E),
    /// The title, filling the row.
    Title(String),
    /// A space that fills the row.
    Space,
}

/// The pane of a context drawer, top to bottom.
pub struct DrawerPane<E, M> {
    /// The start of the header row.
    pub header_slot: HeaderSlot<E>,
    /// The message of the close button at the end of the header row.
    pub on_close: M,
    /// The title under the header row, where the actions took its place.
    pub column_title: Option<String>,
    /// The extra header element under the title.
    pub header: Option<E>,
    /// The header column's vertical and horizontal padding.
    pub header_padding: [u16; 2],
    /// The spacing between the parts of the header column.
    pub header_spacing: u16,
    /// The contents of the drawer, in a scrollable area.
    pub drawer: E,
    /// The padding around the contents: top, right, bottom, left.
    pub drawer_padding: [u16; 4],
    /// The footer.
    pub footer: Option<E>,
    /// The footer's vertical and horizontal padding.
    pub footer_padding: [u16; 2],
    /// The largest width of the pane, in whole logical pixels.
    pub max_width: u32,
}

/// The side padding of a drawer of the given width.
pub open spec fn side_padding(spacing: DrawerSpacing, max_width: u32) -> u16 {
    if max_width < NARROW_WIDTH { spacing.space_s } else { spacing.space_l }
}

/// The pane of a context drawer.
///
/// With actions, the actions start the header row and the title goes under
/// it; without, the title (or a space) starts the header row. The contents
/// get no bottom padding when a footer follows them.
pub open spec fn spec_pane<E, M>(
    title: Option<String>,
    actions: Option<E>,
    header: Option<E>,
    footer: Option<E>,
    drawer: E,
    on_close: M,
    max_width: u32,
    spacing: DrawerSpacing,
) -> DrawerPane<E, M> {
    let side = side_padding(spacing, max_width);
    DrawerPane {
        header_slot: match actions {
            Some(a) => HeaderSlot::Actions(a),
            None => match title {
                Some(t) => HeaderSlot::Title(t),
                None => HeaderSlot::Space,
            },
        },
        on_close,
        column_title: if actions is Some { title } else { None },
        header,
        header_padding: [spacing.space_m, side],
        header_spacing: spacing.space_m,
        drawer,
        drawer_padding: [0u16, side, if footer is Some { 0u16 } else { spacing.space_l }, side],
        footer,
        footer_padding: [spacing.space_xxs, side],
        max_width,
    }
}

/// A view `content` with a context drawer attached to its side.
pub struct ContextDrawer<E, M> {
    pub id: Option<Id>,
    pub content: E,
    pub drawer: DrawerPane<E, M>,
    /// The message sent when the drawer is closed from outside its pane.
    pub on_close: Option<M>,
}

/// A view with a context drawer attached to it.
pub fn context_drawer<E, M>(
    title: Option<String>,
    actions: Option<E>,
    header: Option<E>,
    footer: Option<E>,
    on_close: M,
    content: E,
    drawer: E,
    max_width: u32,
    spacing: DrawerSpacing,
) -> (r: ContextDrawer<E, M>)
    ensures
        r.id is None,
        r.content == content,
        r.drawer == spec_pane(title, actions, header, footer, drawer, on_close, max_width, spacing),
        r.on_close is None,
{
    ContextDrawer::new(title, actions, header, footer, content, drawer, on_close, max_width, spacing)
}

impl<E, M> ContextDrawer<E, M> {
    /// Builds the pane of a context drawer, as `spec_pane` describes it.
    pub fn new_inner(
        title: Option<String>,
        actions: Option<E>,
        header: Option<E>,
        footer: Option<E>,
        drawer: E,
        on_close: M,
        max_width: u32,
        spacing: DrawerSpacing,
    ) -> (r: DrawerPane<E, M>)
        ensures
            r == spec_pane(title, actions, header, footer, drawer, on_close, max_width, spacing),
    {
        let horizontal = if max_width < NARROW_WIDTH { spacing.space_s } else { spacing.space_l };
        let (header_slot, column_title) = match actions {
            Some(a) => (HeaderSlot::Actions(a), title),
            None => match title {
                Some(t) => (HeaderSlot::Title(t), None),
                None => (HeaderSlot::Space, None),
            },
        };
        let bottom = if footer.is_some() { 0u16 } else { spacing.space_l };
        DrawerPane {
            header_slot,
            on_close,
            column_title,
            header,
            header_padding: [spacing.space_m, horizontal],
            header_spacing: spacing.space_m,
            drawer,
            drawer_padding: [0u16, horizontal, bottom, horizontal],
            footer,
            footer_padding: [spacing.space_xxs, horizontal],
            max_width,
        }
    }

    /// A view with a context drawer attached to it. The close message goes
    /// to the button of the pane; `on_close` stays unset.
    pub fn new(
        title: Option<String>,
        actions: Option<E>,
        header: Option<E>,
        footer: Option<E>,
        content: E,
        drawer: E,
        on_close: M,
        max_width: u32,
        spacing: DrawerSpacing,
    ) -> (r: Self)
        ensures
            r.id is None,
            r.content == content,
            r.drawer == spec_pane(title, actions, header, footer, drawer, on_close, max_width, spacing),
            r.on_close is None,
    {
        let drawer = Self::new_inner(title, actions, header, footer, drawer, on_close, max_width, spacing);
        ContextDrawer { id: None, content, drawer, on_close: None }
    }

    /// Sets the identifier.
    pub fn id(self, id: Id) -> (r: Self)
        ensures
            r == (ContextDrawer { id: Some(id), ..self }),
    {
        ContextDrawer { id: Some(id), ..self }
    }

    /// Sets or clears the message sent when the drawer is closed.
    pub fn on_close_maybe(self, message: Option<M>) -> (r: Self)
        ensures
            r == (ContextDrawer { on_close: message, ..self }),
    {
        ContextDrawer { on_close: message, ..self }
    }
}

} // verus!
