//! A heading that expands to show a list of rows.

use vstd::prelude::*;

verus! {

/// Whether the rows of an expander are shown.
pub struct ExpanderState {
    pub expanded: bool,
}

impl Default for ExpanderState {
    /// An expander starts expanded.
    fn default() -> (r: Self)
        ensures
            r.expanded,
    {
        ExpanderState { expanded: true }
    }
}

/// What the user did with an expander.
#[derive(Debug, Clone, Copy, PartialEq, Eq, Structural)]
pub enum ExpanderEvent {
    /// The toggle was pressed.
    Expand,
    /// The row at the given index was pressed.
    RowSelected(usize),
}

/// An entry of the list under the heading.
#[derive(Debug, Clone, Copy, PartialEq, Eq, Structural)]
pub enum RowEntry {
    /// The row at the given index.
    Row(usize),
    /// A line between two rows.
    Separator,
}

/// A heading with a title, and rows of type `R` that a press on the heading's
/// toggle shows or hides. Pressing a row calls the handler `F` with its index.
pub struct Expander<'a, R, F> {
    pub title: &'a str,
    pub subtitle: Option<&'a str>,
    pub icon: Option<String>,
    pub expansible: bool,
    pub rows: Option<Vec<R>>,
    pub on_row_selected: Option<F>,
}

/// An expander with an empty title, no subtitle, icon, rows or handler,
/// that cannot be expanded.
pub fn expander<'a, R, F>() -> (r: Expander<'a, R, F>)
    ensures
        r.title@.len() == 0,
        r.subtitle is None,
        r.icon is None,
        !r.expansible,
        r.rows is None,
        r.on_row_selected is None,
{
    let title = "";
    proof {
        reveal_strlit("");
    }
    Expander { title, subtitle: None, icon: None, expansible: false, rows: None, on_row_selected: None }
}

/// Whether the expander is expanded after an event: the toggle flips it,
/// a row press keeps it.
pub open spec fn expanded_after(expanded: bool, event: ExpanderEvent) -> bool {
    match event {
        ExpanderEvent::Expand => !expanded,
        ExpanderEvent::RowSelected(_) => expanded,
    }
}

/// Pressing the toggle twice leaves the expander as it was.
pub proof fn lemma_toggle_twice(expanded: bool)
    ensures
        expanded_after(expanded_after(expanded, ExpanderEvent::Expand), ExpanderEvent::Expand) == expanded,
{
}

/// The entries under the heading for `n` rows: each row, with a separator
/// between two rows.
pub open spec fn row_entries_for(n: nat) -> Seq<RowEntry>
    decreases n,
{
    if n == 0 {
        Seq::empty()
    } else if n == 1 {
        seq![RowEntry::Row(0)]
    } else {
        row_entries_for((n - 1) as nat) + seq![RowEntry::Separator, RowEntry::Row((n - 1) as usize)]
    }
}

impl<'a, R, F> Expander<'a, R, F> {
    /// Sets the title.
    pub fn title(self, title: &'a str) -> (r: Self)
        ensures
            r == (Expander { title, ..self }),
    {
        Expander { title, ..self }
    }

    /// Sets the subtitle.
    pub fn subtitle(self, subtitle: &'a str) -> (r: Self)
        ensures
            r == (Expander { subtitle: Some(subtitle), ..self }),
    {
        Expander { subtitle: Some(subtitle), ..self }
    }

    /// Sets the name of the heading's icon.
    pub fn icon(self, icon: String) -> (r: Self)
        ensures
            r == (Expander { icon: Some(icon), ..self }),
    {
        Expander { icon: Some(icon), ..self }
    }

    /// Sets whether the expander can be expanded.
    pub fn expansible(self, expansible: bool) -> (r: Self)
        ensures
            r == (Expander { expansible, ..self }),
    {
        Expander { expansible, ..self }
    }

    /// Sets the handler of row presses.
    pub fn on_row_selected(self, f: F) -> (r: Self)
        ensures
            r == (Expander { on_row_selected: Some(f), ..self }),
    {
        Expander { on_row_selected: Some(f), ..self }
    }

    /// Sets the rows, which makes the expander expansible.
    pub fn rows(self, rows: Vec<R>) -> (r: Self)
        ensures
            r == (Expander { rows: Some(rows), expansible: true, ..self }),
    {
        Expander { rows: Some(rows), expansible: true, ..self }
    }

    /// Appends a row.
    pub fn push(&mut self, row: R)
        ensures
            final(self).rows matches Some(v) && v@ == match old(self).rows {
                Some(w) => w@.push(row),
                None => seq![row],
            },
            final(self).title == old(self).title,
            final(self).subtitle == old(self).subtitle,
            final(self).icon == old(self).icon,
            final(self).expansible == old(self).expansible,
            final(self).on_row_selected == old(self).on_row_selected,
    {
        match self.rows.take() {
            Some(mut v) => {
                v.push(row);
                self.rows = Some(v);
            },
            None => {
                let mut v = Vec::new();
                v.push(row);
                assert(v@ =~= seq![row]);
                self.rows = Some(v);
            },
        }
    }

    /// Whether the rows are shown under the heading: the expander is
    /// expanded and can be expanded.
    pub fn shows_rows(&self, state: &ExpanderState) -> (r: bool)
        ensures
            r == (state.expanded && self.expansible),
    {
        state.expanded && self.expansible
    }

    /// The entries under the heading: each row, with a separator between two rows.
    pub fn row_entries(&self) -> (r: Vec<RowEntry>)
        ensures
            r@ == row_entries_for(match self.rows {
                Some(v) => v@.len(),
                None => 0,
            }),
    {
        let n = match &self.rows {
            Some(v) => v.len(),
            None => 0,
        };
        let mut r: Vec<RowEntry> = Vec::new();
        let mut i: usize = 0;
        while i < n
            invariant
                0 <= i <= n,
                r@ == row_entries_for(i as nat),
            decreases n - i,
        {
            if i > 0 {
                r.push(RowEntry::Separator);
            }
            r.push(RowEntry::Row(i));
            assert(r@ =~= row_entries_for((i + 1) as nat));
            i += 1;
        }
        r
    }
}

/// The name of the toggle's icon: pointing down when expanded, else to the side.
pub fn toggler_icon_name(expanded: bool) -> (r: &'static str)
    ensures
        r@ == (if expanded { "go-down-symbolic"@ } else { "go-next-symbolic"@ }),
{
    if expanded {
        "go-down-symbolic"
    } else {
        "go-next-symbolic"
    }
}

impl<'a, R, M, F: Fn(usize) -> M> Expander<'a, R, F> {
    /// Handles an event: the toggle flips whether the expander is expanded;
    /// a row press is reported to the handler, if any, with the row's index.
    pub fn update(&mut self, state: &mut ExpanderState, event: ExpanderEvent) -> (r: Option<M>)
        requires
            old(self).on_row_selected matches Some(f) ==> forall|i: usize| #[trigger] f.requires((i,)),
        ensures
            *final(self) == *old(self),
            match event {
                ExpanderEvent::Expand => final(state).expanded == expanded_after(old(state).expanded, event) && r is None,
                ExpanderEvent::RowSelected(index) => {
                    &&& final(state).expanded == expanded_after(old(state).expanded, event)
                    &&& old(self).on_row_selected is None ==> r is None
                    &&& old(self).on_row_selected matches Some(f) ==> (r matches Some(m) && f.ensures((index,), m))
                },
            },
    {
        match event {
            ExpanderEvent::Expand => {
                state.expanded = !state.expanded;
                None
            },
            ExpanderEvent::RowSelected(index) => match &self.on_row_selected {
                Some(f) => Some(f(index)),
                None => None,
            },
        }
    }
}

} // verus!
