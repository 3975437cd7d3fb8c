//! A simple window header: a button that toggles the navigation sidebar,
//! the title, and the window buttons.

use vstd::prelude::*;

verus! {

/// A request about the window.
#[derive(Debug, Clone, Copy, PartialEq, Eq, Structural)]
pub enum WindowMsg {
    ToggleSidebar,
    Minimize,
    Maximize,
    Close,
    Drag,
}

/// The content of a simple window header.
pub struct HeaderBar {
    pub title: String,
    pub nav_title: String,
    pub sidebar_active: bool,
    pub show_minimize: bool,
    pub show_maximize: bool,
}

impl Default for HeaderBar {
    /// A header with empty titles, an inactive sidebar and no optional buttons.
    fn default() -> (r: Self)
        ensures
            r.title@.len() == 0,
            r.nav_title@.len() == 0,
            !r.sidebar_active && !r.show_minimize && !r.show_maximize,
    {
        HeaderBar {
            title: String::new(),
            nav_title: String::new(),
            sidebar_active: false,
            show_minimize: false,
            show_maximize: false,
        }
    }
}

/// What a simple window header shows, and what pressing each part requests.
pub struct HeaderBarView<'a> {
    /// The text of the navigation button.
    pub nav_title: &'a str,
    /// The icon of the navigation button.
    pub nav_icon: &'static str,
    /// The request of the navigation button.
    pub nav_press: WindowMsg,
    /// The title in the middle.
    pub title: &'a str,
    /// The window buttons, each with its icon and its request.
    pub controls: Vec<(&'static str, WindowMsg)>,
    /// The request of pressing the header itself.
    pub press: WindowMsg,
}

impl HeaderBar {
    /// The icon of the navigation button: back when the sidebar is shown,
    /// forward when it is hidden.
    pub fn nav_icon(&self) -> (r: &'static str)
        ensures
            r@ == if self.sidebar_active { "go-previous-symbolic"@ } else { "go-next-symbolic"@ },
    {
        if self.sidebar_active {
            "go-previous-symbolic"
        } else {
            "go-next-symbolic"
        }
    }

    /// What the header shows: the navigation button, which toggles the
    /// sidebar; the title; the minimize and maximize buttons when enabled
    /// and the close button; pressing the header drags the window.
    pub fn render(&self) -> (r: HeaderBarView<'_>)
        ensures
            r.nav_title@ == self.nav_title@,
            r.nav_icon@ == if self.sidebar_active { "go-previous-symbolic"@ } else { "go-next-symbolic"@ },
            r.nav_press == WindowMsg::ToggleSidebar,
            r.title@ == self.title@,
            r.controls@.map_values(|c: (&'static str, WindowMsg)| (c.0@, c.1)) ==
                (if self.show_minimize { seq![("window-minimize-symbolic"@, WindowMsg::Minimize)] } else { Seq::empty() })
                + (if self.show_maximize { seq![("window-maximize-symbolic"@, WindowMsg::Maximize)] } else { Seq::empty() })
                + seq![("window-close-symbolic"@, WindowMsg::Close)],
            r.press == WindowMsg::Drag,
    {
        let mut controls: Vec<(&'static str, WindowMsg)> = Vec::new();
        if self.show_minimize {
            controls.push(("window-minimize-symbolic", WindowMsg::Minimize));
        }
        if self.show_maximize {
            controls.push(("window-maximize-symbolic", WindowMsg::Maximize));
        }
        controls.push(("window-close-symbolic", WindowMsg::Close));
        assert(controls@.map_values(|c: (&'static str, WindowMsg)| (c.0@, c.1)) =~=
            (if self.show_minimize { seq![("window-minimize-symbolic"@, WindowMsg::Minimize)] } else { Seq::empty() })
            + (if self.show_maximize { seq![("window-maximize-symbolic"@, WindowMsg::Maximize)] } else { Seq::empty() })
            + seq![("window-close-symbolic"@, WindowMsg::Close)]);
        HeaderBarView {
            nav_title: self.nav_title.as_str(),
            nav_icon: self.nav_icon(),
            nav_press: WindowMsg::ToggleSidebar,
            title: self.title.as_str(),
            controls,
            press: WindowMsg::Drag,
        }
    }
}

} // verus!
