//! Placement of the children of a grid: each child is assigned a column
//! and a row, filled left to right, one row after another.

use vstd::prelude::*;
use crate::button::Length;

verus! {

/// Where a child is placed in the grid, and how many cells it spans.
#[derive(Debug, Clone, Copy, PartialEq, Eq, Structural)]
pub struct Assignment {
    pub column: u16,
    pub row: u16,
    pub width: u16,
    pub height: u16,
}

impl Assignment {
    /// A single cell at column 0, row 0.
    pub fn new() -> (r: Self)
        ensures
            r == (Assignment { column: 0, row: 0, width: 1, height: 1 }),
    {
        Assignment { column: 0, row: 0, width: 1, height: 1 }
    }

    /// Sets the column.
    pub fn column(self, column: u16) -> (r: Self)
        ensures
            r == (Assignment { column, ..self }),
    {
        Assignment { column, ..self }
    }

    /// Sets the row.
    pub fn row(self, row: u16) -> (r: Self)
        ensures
            r == (Assignment { row, ..self }),
    {
        Assignment { row, ..self }
    }

    /// Sets the number of columns spanned.
    pub fn width(self, width: u16) -> (r: Self)
        ensures
            r == (Assignment { width, ..self }),
    {
        Assignment { width, ..self }
    }

    /// Sets the number of rows spanned.
    pub fn height(self, height: u16) -> (r: Self)
        ensures
            r == (Assignment { height, ..self }),
    {
        Assignment { height, ..self }
    }
}

impl Default for Assignment {
    fn default() -> (r: Self)
        ensures
            r == (Assignment { column: 0, row: 0, width: 1, height: 1 }),
    {
        Assignment::new()
    }
}

impl From<(u16, u16)> for Assignment {
    fn from(v: (u16, u16)) -> (r: Self) {
        Assignment { column: v.0, row: v.1, width: 1, height: 1 }
    }
}

impl vstd::std_specs::convert::FromSpecImpl<(u16, u16)> for Assignment {
    open spec fn obeys_from_spec() -> bool {
        true
    }

    open spec fn from_spec(v: (u16, u16)) -> Self {
        Assignment { column: v.0, row: v.1, width: 1, height: 1 }
    }
}

impl From<(u16, u16, u16, u16)> for Assignment {
    fn from(v: (u16, u16, u16, u16)) -> (r: Self) {
        Assignment { column: v.0, row: v.1, width: v.2, height: v.3 }
    }
}

impl vstd::std_specs::convert::FromSpecImpl<(u16, u16, u16, u16)> for Assignment {
    open spec fn obeys_from_spec() -> bool {
        true
    }

    open spec fn from_spec(v: (u16, u16, u16, u16)) -> Self {
        Assignment { column: v.0, row: v.1, width: v.2, height: v.3 }
    }
}

/// The children of a grid with their assignments, and the cell where the
/// next child goes. Columns and rows are counted from 1.
pub struct Grid<E> {
    children: Vec<E>,
    assignments: Vec<Assignment>,
    column_spacing: u16,
    row_spacing: u16,
    column: u16,
    row: u16,
}

impl<E> Grid<E> {
    /// The children, in the order they were pushed.
    pub closed spec fn spec_children(&self) -> Seq<E> {
        self.children@
    }

    /// The assignment of each child.
    pub closed spec fn spec_assignments(&self) -> Seq<Assignment> {
        self.assignments@
    }

    /// The column where the next child goes.
    pub closed spec fn next_column(&self) -> u16 {
        self.column
    }

    /// The row where the next child goes.
    pub closed spec fn next_row(&self) -> u16 {
        self.row
    }

    /// The space between columns.
    pub closed spec fn spec_column_spacing(&self) -> u16 {
        self.column_spacing
    }

    /// The space between rows.
    pub closed spec fn spec_row_spacing(&self) -> u16 {
        self.row_spacing
    }

    /// Whether there is one assignment per child.
    pub closed spec fn wf(&self) -> bool {
        self.children@.len() == self.assignments@.len()
    }

    /// An empty grid that places its first child at column 1, row 1, with
    /// spacing 4 between columns and between rows.
    pub fn new() -> (r: Self)
        ensures
            r.wf(),
            r.spec_children().len() == 0,
            r.spec_assignments().len() == 0,
            r.next_column() == 1,
            r.next_row() == 1,
            r.spec_column_spacing() == 4,
            r.spec_row_spacing() == 4,
    {
        Grid {
            children: Vec::new(),
            assignments: Vec::new(),
            column_spacing: 4,
            row_spacing: 4,
            column: 1,
            row: 1,
        }
    }

    /// The children, in the order they were pushed.
    pub fn children(&self) -> (r: &Vec<E>)
        ensures
            r@ == self.spec_children(),
    {
        &self.children
    }

    /// The assignment of each child.
    pub fn assignments(&self) -> (r: &Vec<Assignment>)
        ensures
            r@ == self.spec_assignments(),
    {
        &self.assignments
    }

    /// Attach a new element in the next cell of the current row.
    pub fn push(self, widget: E) -> (r: Self)
        requires
            self.wf(),
            self.next_column() < u16::MAX,
        ensures
            r.wf(),
            r.spec_children() == self.spec_children().push(widget),
            r.spec_assignments() == self.spec_assignments().push(
                Assignment { column: self.next_column(), row: self.next_row(), width: 1, height: 1 },
            ),
            r.next_column() == self.next_column() + 1,
            r.next_row() == self.next_row(),
            r.spec_column_spacing() == self.spec_column_spacing(),
            r.spec_row_spacing() == self.spec_row_spacing(),
    {
        let mut g = self;
        g.children.push(widget);
        g.assignments.push(Assignment { column: g.column, row: g.row, width: 1, height: 1 });
        g.column = g.column + 1;
        g
    }

    /// Attach a new element in the next cell of the current row, with the
    /// assignment that `setup` makes of that cell.
    pub fn push_with<S: Fn(Assignment) -> Assignment>(self, widget: E, setup: S) -> (r: Self)
        requires
            self.wf(),
            self.next_column() < u16::MAX,
            setup.requires((Assignment { column: self.next_column(), row: self.next_row(), width: 1, height: 1 },)),
        ensures
            r.wf(),
            r.spec_children() == self.spec_children().push(widget),
            r.spec_assignments().len() == self.spec_assignments().len() + 1,
            r.spec_assignments().drop_last() == self.spec_assignments(),
            setup.ensures(
                (Assignment { column: self.next_column(), row: self.next_row(), width: 1, height: 1 },),
                r.spec_assignments().last(),
            ),
            r.next_column() == self.next_column() + 1,
            r.next_row() == self.next_row(),
            r.spec_column_spacing() == self.spec_column_spacing(),
            r.spec_row_spacing() == self.spec_row_spacing(),
    {
        let mut g = self;
        g.children.push(widget);
        let a = setup(Assignment { column: g.column, row: g.row, width: 1, height: 1 });
        g.assignments.push(a);
        g.column = g.column + 1;
        assert(g.assignments@.drop_last() =~= self.assignments@);
        g
    }

    /// Sets the space between columns.
    pub fn column_spacing(self, spacing: u16) -> (r: Self)
        ensures
            r.wf() == self.wf(),
            r.spec_children() == self.spec_children(),
            r.spec_assignments() == self.spec_assignments(),
            r.next_column() == self.next_column(),
            r.next_row() == self.next_row(),
            r.spec_column_spacing() == spacing,
            r.spec_row_spacing() == self.spec_row_spacing(),
    {
        Grid { column_spacing: spacing, ..self }
    }

    /// Sets the space between rows.
    pub fn row_spacing(self, spacing: u16) -> (r: Self)
        ensures
            r.wf() == self.wf(),
            r.spec_children() == self.spec_children(),
            r.spec_assignments() == self.spec_assignments(),
            r.next_column() == self.next_column(),
            r.next_row() == self.next_row(),
            r.spec_column_spacing() == self.spec_column_spacing(),
            r.spec_row_spacing() == spacing,
    {
        Grid { row_spacing: spacing, ..self }
    }

    /// Moves to the first column of the next row.
    pub fn insert_row(self) -> (r: Self)
        requires
            self.next_row() < u16::MAX,
        ensures
            r.wf() == self.wf(),
            r.spec_children() == self.spec_children(),
            r.spec_assignments() == self.spec_assignments(),
            r.next_column() == 1,
            r.next_row() == self.next_row() + 1,
            r.spec_column_spacing() == self.spec_column_spacing(),
            r.spec_row_spacing() == self.spec_row_spacing(),
    {
        let mut g = self;
        g.row = g.row + 1;
        g.column = 1;
        g
    }
}


/// The grid lines that a child spans: its first column and row, and the
/// lines just after its last column and row.
#[derive(Debug, Clone, Copy, PartialEq, Eq, Structural)]
pub struct Placement {
    pub column_start: i16,
    pub column_end: i16,
    pub row_start: i16,
    pub row_end: i16,
}

/// Whether the lines after the spanned cells are numbers of the layout: the
/// numbers of the assignment, read as `i16`, add up without overflow.
pub open spec fn lines_fit(a: Assignment) -> bool {
    &&& i16::MIN <= (a.column as i16) + (a.width as i16) <= i16::MAX
    &&& i16::MIN <= (a.row as i16) + (a.height as i16) <= i16::MAX
}

impl Assignment {
    /// Whether the lines after the spanned cells are numbers of the layout.
    pub fn fits_lines(&self) -> (r: bool)
        ensures
            r == lines_fit(*self),
    {
        let c = (self.column as i16) as i32 + (self.width as i16) as i32;
        let w = (self.row as i16) as i32 + (self.height as i16) as i32;
        -32768 <= c && c <= 32767 && -32768 <= w && w <= 32767
    }

    /// The grid lines of the assignment: it starts at its column and row
    /// and ends that many cells further, each number read as an `i16`.
    pub fn placement(&self) -> (r: Placement)
        requires
            lines_fit(*self),
        ensures
            r.column_start == self.column as i16,
            r.column_end == (self.column as i16) + (self.width as i16),
            r.row_start == self.row as i16,
            r.row_end == (self.row as i16) + (self.height as i16),
    {
        Placement {
            column_start: self.column as i16,
            column_end: self.column as i16 + self.width as i16,
            row_start: self.row as i16,
            row_end: self.row as i16 + self.height as i16,
        }
    }
}

/// How children align within their cells, along one axis.
#[derive(Debug, Clone, Copy, PartialEq, Eq, Structural)]
pub enum Alignment {
    Start,
    Center,
    End,
}

/// How the layout aligns the children within their cells.
#[derive(Debug, Clone, Copy, PartialEq, Eq, Structural)]
pub enum AlignItems {
    Start,
    Center,
    End,
    Stretch,
}

/// The alignment as the layout names it.
pub open spec fn spec_align(a: Alignment) -> AlignItems {
    match a {
        Alignment::Start => AlignItems::Start,
        Alignment::Center => AlignItems::Center,
        Alignment::End => AlignItems::End,
    }
}

/// Whether a length fills the space it is given.
pub open spec fn fills(l: Length) -> bool {
    l is Fill || l is FillPortion
}

fn align_or_stretch(l: Length, a: Alignment) -> (r: AlignItems)
    ensures
        r == (if fills(l) { AlignItems::Stretch } else { spec_align(a) }),
{
    match l {
        Length::Fill | Length::FillPortion(_) => AlignItems::Stretch,
        _ => match a {
            Alignment::Start => AlignItems::Start,
            Alignment::Center => AlignItems::Center,
            Alignment::End => AlignItems::End,
        },
    }
}

/// How the grid aligns its children along the rows: stretched when the
/// grid fills its width, else as `row_alignment` says.
pub fn align_items(width: Length, row_alignment: Alignment) -> (r: AlignItems)
    ensures
        r == (if fills(width) { AlignItems::Stretch } else { spec_align(row_alignment) }),
        !fills(width) ==> (r is Start <==> row_alignment is Start) && (r is Center <==> row_alignment is Center)
            && (r is End <==> row_alignment is End),
{
    align_or_stretch(width, row_alignment)
}

/// How the grid aligns its children along the columns: stretched when the
/// grid fills its height, else as `column_alignment` says.
pub fn justify_items(height: Length, column_alignment: Alignment) -> (r: AlignItems)
    ensures
        r == (if fills(height) { AlignItems::Stretch } else { spec_align(column_alignment) }),
        !fills(height) ==> (r is Start <==> column_alignment is Start) && (r is Center <==> column_alignment is Center)
            && (r is End <==> column_alignment is End),
{
    align_or_stretch(height, column_alignment)
}

/// The layout keeps the alignment that was asked for, one for one, and
/// never stretches where the length does not fill.
pub proof fn lemma_alignment_kept(a: Alignment)
    ensures
        spec_align(a) != AlignItems::Stretch,
        spec_align(a) is Start <==> a is Start,
        spec_align(a) is Center <==> a is Center,
        spec_align(a) is End <==> a is End,
{
}

} // verus!
