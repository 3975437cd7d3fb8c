//! A dialog: a title, an optional icon and body, controls, and up to three
//! action buttons.

use vstd::prelude::*;

verus! {

/// A dialog whose icon, controls and buttons are elements `E`.
pub struct Dialog<E> {
    pub title: String,
    pub icon: Option<E>,
    pub body: Option<String>,
    pub controls: Vec<E>,
    pub primary_action: Option<E>,
    pub secondary_action: Option<E>,
    pub tertiary_action: Option<E>,
}

/// A dialog with the given title.
pub fn dialog<E>(title: String) -> (r: Dialog<E>)
    ensures
        r.title == title,
        r.icon is None,
        r.body is None,
        r.controls@.len() == 0,
        r.primary_action is None,
        r.secondary_action is None,
        r.tertiary_action is None,
{
    Dialog::new(title)
}

/// A gap between the parts of a dialog.
#[derive(Debug, Clone, Copy, PartialEq, Eq, Structural)]
pub enum Gap {
    /// The extra-extra-small spacing of the theme.
    ExtraExtraSmall,
    /// The small spacing of the theme.
    Small,
}

/// A part of the dialog's content column.
pub enum ContentItem<E> {
    Title(String),
    Space(Gap),
    Body(String),
    Control(E),
}

/// A part of the dialog's button row.
pub enum ButtonItem<E> {
    Button(E),
    /// A space that fills the width that the buttons leave.
    Fill,
}

/// How a dialog is laid out: the icon beside the content column, and the
/// button row under them.
pub struct DialogLayout<E> {
    pub icon: Option<E>,
    pub content: Vec<ContentItem<E>>,
    pub buttons: Vec<ButtonItem<E>>,
}

/// Each control, preceded by a small gap.
pub open spec fn spaced_controls<E>(controls: Seq<E>) -> Seq<ContentItem<E>>
    decreases controls.len(),
{
    if controls.len() == 0 {
        Seq::empty()
    } else {
        spaced_controls(controls.drop_last()) + seq![ContentItem::Space(Gap::Small), ContentItem::Control(controls.last())]
    }
}

/// The content column: the title, the body after an extra-extra-small gap,
/// then each control after a small gap.
pub open spec fn spec_content<E>(title: String, body: Option<String>, controls: Seq<E>) -> Seq<ContentItem<E>> {
    let head: Seq<ContentItem<E>> = match body {
        Some(b) => seq![ContentItem::Title(title), ContentItem::Space(Gap::ExtraExtraSmall), ContentItem::Body(b)],
        None => seq![ContentItem::Title(title)],
    };
    head + spaced_controls(controls)
}

/// The button row: the tertiary action on the left, then a filling space,
/// then the secondary and the primary action on the right.
pub open spec fn spec_buttons<E>(primary: Option<E>, secondary: Option<E>, tertiary: Option<E>) -> Seq<ButtonItem<E>> {
    let t: Seq<ButtonItem<E>> = match tertiary {
        Some(b) => seq![ButtonItem::Button(b)],
        None => Seq::empty(),
    };
    let s: Seq<ButtonItem<E>> = match secondary {
        Some(b) => seq![ButtonItem::Button(b)],
        None => Seq::empty(),
    };
    let p: Seq<ButtonItem<E>> = match primary {
        Some(b) => seq![ButtonItem::Button(b)],
        None => Seq::empty(),
    };
    t + seq![ButtonItem::Fill] + s + p
}

impl<E> Dialog<E> {
    /// A dialog with the given title.
    pub fn new(title: String) -> (r: Self)
        ensures
            r.title == title,
            r.icon is None,
            r.body is None,
            r.controls@.len() == 0,
            r.primary_action is None,
            r.secondary_action is None,
            r.tertiary_action is None,
    {
        Dialog {
            title,
            icon: None,
            body: None,
            controls: Vec::new(),
            primary_action: None,
            secondary_action: None,
            tertiary_action: None,
        }
    }

    /// Sets the icon.
    pub fn icon(self, icon: E) -> (r: Self)
        ensures
            r == (Dialog { icon: Some(icon), ..self }),
    {
        Dialog { icon: Some(icon), ..self }
    }

    /// Sets the body text.
    pub fn body(self, body: String) -> (r: Self)
        ensures
            r == (Dialog { body: Some(body), ..self }),
    {
        Dialog { body: Some(body), ..self }
    }

    /// Appends a control.
    pub fn control(self, control: E) -> (r: Self)
        ensures
            r.controls@ == self.controls@.push(control),
            r == (Dialog { controls: r.controls, ..self }),
    {
        let mut d = self;
        d.controls.push(control);
        d
    }

    /// Sets the primary action button.
    pub fn primary_action(self, button: E) -> (r: Self)
        ensures
            r == (Dialog { primary_action: Some(button), ..self }),
    {
        Dialog { primary_action: Some(button), ..self }
    }

    /// Sets the secondary action button.
    pub fn secondary_action(self, button: E) -> (r: Self)
        ensures
            r == (Dialog { secondary_action: Some(button), ..self }),
    {
        Dialog { secondary_action: Some(button), ..self }
    }

    /// Sets the tertiary action button.
    pub fn tertiary_action(self, button: E) -> (r: Self)
        ensures
            r == (Dialog { tertiary_action: Some(button), ..self }),
    {
        Dialog { tertiary_action: Some(button), ..self }
    }

    /// Lays the dialog out.
    pub fn layout(self) -> (r: DialogLayout<E>)
        ensures
            r.icon == self.icon,
            r.content@ == spec_content(self.title, self.body, self.controls@),
            r.buttons@ == spec_buttons(self.primary_action, self.secondary_action, self.tertiary_action),
    {
        let Dialog { title, icon, body, controls, primary_action, secondary_action, tertiary_action } = self;
        let ghost control_seq = controls@;
        let mut content: Vec<ContentItem<E>> = Vec::new();
        content.push(ContentItem::Title(title));
        match body {
            Some(b) => {
                content.push(ContentItem::Space(Gap::ExtraExtraSmall));
                content.push(ContentItem::Body(b));
            },
            None => {},
        }
        let ghost head = content@;
        let mut rest = controls;
        let mut i: usize = 0;
        let n = rest.len();
        while i < n
            invariant
                n == control_seq.len(),
                0 <= i <= n,
                rest@ == control_seq.skip(i as int),
                content@ == head + spaced_controls(control_seq.take(i as int)),
            decreases n - i,
        {
            assert(rest@.len() == n - i);
            let c = rest.remove(0);
            assert(c == control_seq[i as int]);
            content.push(ContentItem::Space(Gap::Small));
            content.push(ContentItem::Control(c));
            assert(control_seq.take(i + 1).drop_last() =~= control_seq.take(i as int));
            assert(content@ =~= head + spaced_controls(control_seq.take(i + 1)));
            assert(rest@ =~= control_seq.skip(i + 1));
            i += 1;
        }
        assert(control_seq.take(n as int) =~= control_seq);
        let mut buttons: Vec<ButtonItem<E>> = Vec::new();
        match tertiary_action {
            Some(b) => buttons.push(ButtonItem::Button(b)),
            None => {},
        }
        buttons.push(ButtonItem::Fill);
        match secondary_action {
            Some(b) => buttons.push(ButtonItem::Button(b)),
            None => {},
        }
        match primary_action {
            Some(b) => buttons.push(ButtonItem::Button(b)),
            None => {},
        }
        assert(buttons@ =~= spec_buttons(primary_action, secondary_action, tertiary_action));
        DialogLayout { icon, content, buttons }
    }
}


/// The filling space always stands in the button row, after the tertiary
/// action when there is one; each action that is set stands in the row
/// once: the tertiary first, the secondary right after the filling space,
/// the primary last.
pub proof fn lemma_button_order<E>(primary: Option<E>, secondary: Option<E>, tertiary: Option<E>)
    ensures
        spec_buttons(primary, secondary, tertiary).contains(ButtonItem::Fill),
        spec_buttons(primary, secondary, tertiary).len() == 1 + (if primary is Some { 1int } else { 0 })
            + (if secondary is Some { 1int } else { 0 }) + (if tertiary is Some { 1int } else { 0 }),
        spec_buttons(primary, secondary, tertiary)[if tertiary is Some { 1int } else { 0 }] == ButtonItem::<E>::Fill,
        primary matches Some(p) ==> spec_buttons(primary, secondary, tertiary).last() == ButtonItem::Button(p),
        secondary matches Some(s) ==> spec_buttons(primary, secondary, tertiary)[if tertiary is Some { 2int } else { 1 }]
            == ButtonItem::Button(s),
        tertiary matches Some(t) ==> spec_buttons(primary, secondary, tertiary)[0] == ButtonItem::Button(t),
{
    let b = spec_buttons(primary, secondary, tertiary);
    let t: Seq<ButtonItem<E>> = match tertiary {
        Some(x) => seq![ButtonItem::Button(x)],
        None => Seq::empty(),
    };
    assert(b[t.len() as int] == ButtonItem::<E>::Fill);
}

} // verus!
