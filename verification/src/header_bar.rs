//! The header bar of a window: elements packed at its start, center and
//! end, the window's title, and its window controls.

use vstd::prelude::*;

verus! {

/// How much room the header bar takes.
#[derive(Debug, Clone, Copy, PartialEq, Eq, Structural)]
pub enum Density {
    Compact,
    Spacious,
    Standard,
}

/// A header bar carrying messages `M` and elements `E`.
pub struct HeaderBar<M, E> {
    pub title: String,
    pub on_close: Option<M>,
    pub on_drag: Option<M>,
    pub on_maximize: Option<M>,
    pub on_minimize: Option<M>,
    pub on_double_click: Option<M>,
    pub on_right_click: Option<M>,
    pub start: Vec<E>,
    pub center: Vec<E>,
    pub end: Vec<E>,
    pub density: Option<Density>,
    pub focused: bool,
    pub maximized: bool,
    pub sharp_corners: bool,
    pub is_ssd: bool,
    pub transparent: bool,
}

/// A header bar with an empty title, no messages, no elements, no density
/// of its own, and every flag off.
pub fn header_bar<M, E>() -> (r: HeaderBar<M, E>)
    ensures
        r.title@.len() == 0,
        r.on_close is None && r.on_drag is None && r.on_maximize is None,
        r.on_minimize is None && r.on_double_click is None && r.on_right_click is None,
        r.start@.len() == 0 && r.center@.len() == 0 && r.end@.len() == 0,
        r.density is None,
        !r.focused && !r.maximized && !r.sharp_corners && !r.is_ssd && !r.transparent,
{
    HeaderBar {
        title: String::new(),
        on_close: None,
        on_drag: None,
        on_maximize: None,
        on_minimize: None,
        on_double_click: None,
        on_right_click: None,
        start: Vec::new(),
        center: Vec::new(),
        end: Vec::new(),
        density: None,
        focused: false,
        maximized: false,
        sharp_corners: false,
        is_ssd: false,
        transparent: false,
    }
}

/// What the center of the header bar shows.
#[derive(Debug, Clone, Copy, PartialEq, Eq, Structural)]
pub enum CenterContent {
    /// The elements packed in the center.
    Elements,
    /// The title.
    Title,
    /// Nothing.
    Empty,
}

/// A window control button.
#[derive(Debug, Clone, Copy, PartialEq, Eq, Structural)]
pub enum WindowControl {
    Minimize,
    Maximize,
    Restore,
    Close,
}

impl WindowControl {
    /// The name of the control's icon.
    pub fn icon_name(self) -> (r: &'static str)
        ensures
            r@ == match self {
                WindowControl::Minimize => "window-minimize-symbolic"@,
                WindowControl::Maximize => "window-maximize-symbolic"@,
                WindowControl::Restore => "window-restore-symbolic"@,
                WindowControl::Close => "window-close-symbolic"@,
            },
    {
        match self {
            WindowControl::Minimize => "window-minimize-symbolic",
            WindowControl::Maximize => "window-maximize-symbolic",
            WindowControl::Restore => "window-restore-symbolic",
            WindowControl::Close => "window-close-symbolic",
        }
    }
}

/// The padding of the header bar, top, right, bottom and left.
pub open spec fn spec_padding(is_ssd: bool, density: Density, maximized: bool) -> [u16; 4] {
    if is_ssd {
        [2, 8, 2, 8]
    } else {
        match (density, maximized) {
            (Density::Compact, true) => [4, 8, 4, 8],
            (Density::Compact, false) => [3, 7, 4, 7],
            (_, true) => [8, 8, 8, 8],
            (_, false) => [7, 7, 8, 7],
        }
    }
}

/// The padding of the header bar, top, right, bottom and left: narrow for
/// server-side decorations, else by density, one pixel more at the top and
/// sides of a window that is not maximized, for its border.
pub fn padding(is_ssd: bool, density: Density, maximized: bool) -> (r: [u16; 4])
    ensures
        r@ == spec_padding(is_ssd, density, maximized)@,
{
    if is_ssd {
        [2, 8, 2, 8]
    } else {
        match (density, maximized) {
            (Density::Compact, true) => [4, 8, 4, 8],
            (Density::Compact, false) => [3, 7, 4, 7],
            (_, true) => [8, 8, 8, 8],
            (_, false) => [7, 7, 8, 7],
        }
    }
}

/// The height of the header bar: 32 pixels of content and its vertical padding.
pub fn height(padding: [u16; 4]) -> (r: u32)
    ensures
        r == 32 + padding@[0] + padding@[2],
{
    32 + padding[0] as u32 + padding[2] as u32
}

impl<M, E> HeaderBar<M, E> {
    /// Defines the title of the window.
    pub fn title(self, title: String) -> (r: Self)
        ensures
            r == (HeaderBar { title, ..self }),
    {
        HeaderBar { title, ..self }
    }

    /// Pushes an element to the start region.
    pub fn start(self, widget: E) -> (r: Self)
        ensures
            r.start@ == self.start@.push(widget),
            r == (HeaderBar { start: r.start, ..self }),
    {
        let mut h = self;
        h.start.push(widget);
        h
    }

    /// Pushes an element to the center region.
    pub fn center(self, widget: E) -> (r: Self)
        ensures
            r.center@ == self.center@.push(widget),
            r == (HeaderBar { center: r.center, ..self }),
    {
        let mut h = self;
        h.center.push(widget);
        h
    }

    /// Pushes an element to the end region.
    pub fn end(self, widget: E) -> (r: Self)
        ensures
            r.end@ == self.end@.push(widget),
            r == (HeaderBar { end: r.end, ..self }),
    {
        let mut h = self;
        h.end.push(widget);
        h
    }

    /// Sets the message of the close button.
    pub fn on_close(self, message: M) -> (r: Self)
        ensures
            r == (HeaderBar { on_close: Some(message), ..self }),
    {
        HeaderBar { on_close: Some(message), ..self }
    }

    /// Sets the message of a drag.
    pub fn on_drag(self, message: M) -> (r: Self)
        ensures
            r == (HeaderBar { on_drag: Some(message), ..self }),
    {
        HeaderBar { on_drag: Some(message), ..self }
    }

    /// Sets the message of the maximize button.
    pub fn on_maximize(self, message: M) -> (r: Self)
        ensures
            r == (HeaderBar { on_maximize: Some(message), ..self }),
    {
        HeaderBar { on_maximize: Some(message), ..self }
    }

    /// Sets the message of the minimize button.
    pub fn on_minimize(self, message: M) -> (r: Self)
        ensures
            r == (HeaderBar { on_minimize: Some(message), ..self }),
    {
        HeaderBar { on_minimize: Some(message), ..self }
    }

    /// Sets the message of a double click.
    pub fn on_double_click(self, message: M) -> (r: Self)
        ensures
            r == (HeaderBar { on_double_click: Some(message), ..self }),
    {
        HeaderBar { on_double_click: Some(message), ..self }
    }

    /// Sets the message of a right click.
    pub fn on_right_click(self, message: M) -> (r: Self)
        ensures
            r == (HeaderBar { on_right_click: Some(message), ..self }),
    {
        HeaderBar { on_right_click: Some(message), ..self }
    }

    /// Sets the density.
    pub fn density(self, density: Density) -> (r: Self)
        ensures
            r == (HeaderBar { density: Some(density), ..self }),
    {
        HeaderBar { density: Some(density), ..self }
    }

    /// Sets whether the window is focused.
    pub fn focused(self, focused: bool) -> (r: Self)
        ensures
            r == (HeaderBar { focused, ..self }),
    {
        HeaderBar { focused, ..self }
    }

    /// Sets whether the window is maximized.
    pub fn maximized(self, maximized: bool) -> (r: Self)
        ensures
            r == (HeaderBar { maximized, ..self }),
    {
        HeaderBar { maximized, ..self }
    }

    /// Sets whether the corners are sharp.
    pub fn sharp_corners(self, sharp_corners: bool) -> (r: Self)
        ensures
            r == (HeaderBar { sharp_corners, ..self }),
    {
        HeaderBar { sharp_corners, ..self }
    }

    /// Sets whether the header bar is a server-side decoration.
    pub fn is_ssd(self, is_ssd: bool) -> (r: Self)
        ensures
            r == (HeaderBar { is_ssd, ..self }),
    {
        HeaderBar { is_ssd, ..self }
    }

    /// Sets whether the header bar is transparent.
    pub fn transparent(self, transparent: bool) -> (r: Self)
        ensures
            r == (HeaderBar { transparent, ..self }),
    {
        HeaderBar { transparent, ..self }
    }

    /// What the center shows: its elements if there are any, else the title
    /// if it is not empty, else nothing.
    pub fn center_content(&self) -> (r: CenterContent)
        ensures
            r == if self.center@.len() > 0 {
                CenterContent::Elements
            } else if self.title@.len() > 0 {
                CenterContent::Title
            } else {
                CenterContent::Empty
            },
    {
        if self.center.len() > 0 {
            CenterContent::Elements
        } else if !self.title.as_str().is_empty() {
            CenterContent::Title
        } else {
            CenterContent::Empty
        }
    }
}


/// The window controls of a header bar that has the given messages, in
/// order: minimize, maximize (restore when maximized), close.
pub open spec fn spec_window_controls<M>(
    on_minimize: Option<M>,
    on_maximize: Option<M>,
    on_close: Option<M>,
    maximized: bool,
) -> Seq<(WindowControl, M)> {
    let a: Seq<(WindowControl, M)> = match on_minimize {
        Some(m) => seq![(WindowControl::Minimize, m)],
        None => Seq::empty(),
    };
    let b: Seq<(WindowControl, M)> = match on_maximize {
        Some(m) => seq![(if maximized { WindowControl::Restore } else { WindowControl::Maximize }, m)],
        None => Seq::empty(),
    };
    let c: Seq<(WindowControl, M)> = match on_close {
        Some(m) => seq![(WindowControl::Close, m)],
        None => Seq::empty(),
    };
    a + b + c
}

/// Each window control whose message is set stands once among the
/// controls, and no other: minimize first, close last, and between them
/// maximize, or restore when the window is maximized.
pub proof fn lemma_window_controls_one_each<M>(
    on_minimize: Option<M>,
    on_maximize: Option<M>,
    on_close: Option<M>,
    maximized: bool,
)
    ensures
        ({
            let c = spec_window_controls(on_minimize, on_maximize, on_close, maximized);
            &&& c.len() == (if on_minimize is Some { 1int } else { 0 }) + (if on_maximize is Some { 1int } else { 0 })
                + (if on_close is Some { 1int } else { 0 })
            &&& on_minimize matches Some(m) ==> c[0] == (WindowControl::Minimize, m)
            &&& on_maximize matches Some(m) ==> c[if on_minimize is Some { 1int } else { 0 }]
                == (if maximized { WindowControl::Restore } else { WindowControl::Maximize }, m)
            &&& on_close matches Some(m) ==> c.last() == (WindowControl::Close, m)
            &&& forall|i: int| 0 <= i < c.len() ==> match #[trigger] c[i].0 {
                WindowControl::Minimize => on_minimize == Some(c[i].1),
                WindowControl::Maximize => !maximized && on_maximize == Some(c[i].1),
                WindowControl::Restore => maximized && on_maximize == Some(c[i].1),
                WindowControl::Close => on_close == Some(c[i].1),
            }
        }),
{
}

impl<M, E> HeaderBar<M, E> {
    /// Takes the messages of the window controls and returns the controls to
    /// show, in order: minimize, maximize (restore when maximized), close.
    pub fn window_controls(&mut self) -> (r: Vec<(WindowControl, M)>)
        ensures
            r@ == spec_window_controls(old(self).on_minimize, old(self).on_maximize, old(self).on_close, old(self).maximized),
            final(self).on_minimize is None,
            final(self).on_maximize is None,
            final(self).on_close is None,
            final(self).title == old(self).title,
            final(self).on_drag == old(self).on_drag,
            final(self).on_double_click == old(self).on_double_click,
            final(self).on_right_click == old(self).on_right_click,
            final(self).start == old(self).start,
            final(self).center == old(self).center,
            final(self).end == old(self).end,
            final(self).density == old(self).density,
            final(self).focused == old(self).focused,
            final(self).maximized == old(self).maximized,
            final(self).sharp_corners == old(self).sharp_corners,
            final(self).is_ssd == old(self).is_ssd,
            final(self).transparent == old(self).transparent,
    {
        let mut r: Vec<(WindowControl, M)> = Vec::new();
        match self.on_minimize.take() {
            Some(m) => r.push((WindowControl::Minimize, m)),
            None => {},
        }
        match self.on_maximize.take() {
            Some(m) => {
                let c = if self.maximized { WindowControl::Restore } else { WindowControl::Maximize };
                r.push((c, m));
            },
            None => {},
        }
        match self.on_close.take() {
            Some(m) => r.push((WindowControl::Close, m)),
            None => {},
        }
        assert(r@ =~= spec_window_controls(old(self).on_minimize, old(self).on_maximize, old(self).on_close, old(self).maximized));
        r
    }
}

/// The three regions of a header bar laid out as one widget.
pub struct HeaderBarWidget<E> {
    pub start: E,
    pub center: Option<E>,
    pub end: E,
}

impl<E> HeaderBarWidget<E> {
    /// The widget of the given regions.
    pub fn new(start: E, center: Option<E>, end: E) -> (r: Self)
        ensures
            r.start == start,
            r.center == center,
            r.end == end,
    {
        HeaderBarWidget { start, center, end }
    }

    /// The regions in the order of the widget's children: start, end, then
    /// the center if there is one.
    pub fn elems(&self) -> (r: Vec<&E>)
        ensures
            r@ == match self.center {
                Some(c) => seq![&self.start, &self.end, &c],
                None => seq![&self.start, &self.end],
            },
    {
        let mut r: Vec<&E> = Vec::new();
        r.push(&self.start);
        r.push(&self.end);
        match &self.center {
            Some(c) => r.push(c),
            None => {},
        }
        assert(r@ =~= match self.center {
            Some(c) => seq![&self.start, &self.end, &c],
            None => seq![&self.start, &self.end],
        });
        r
    }

    /// The regions, to change in place, in the order of the widget's
    /// children: start, end, then the center if there is one.
    pub fn elems_mut(&mut self) -> (r: (&mut E, &mut E, Option<&mut E>))
        ensures
            *r.0 == old(self).start,
            *r.1 == old(self).end,
            final(self).start == *final(r.0),
            final(self).end == *final(r.1),
            match r.2 {
                Some(c) => old(self).center == Some(*c) && final(self).center == Some(*final(c)),
                None => old(self).center is None && final(self).center is None,
            },
    {
        let HeaderBarWidget { start, center, end } = self;
        (start, end, center.as_mut())
    }
}

} // verus!
