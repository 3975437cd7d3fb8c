//! A responsive row: items of one width, as many to a row as fit in the
//! available width, in as many rows as they need.

use vstd::prelude::*;
use crate::button::Length;

verus! {

/// Horizontal alignment.
#[derive(Debug, Clone, Copy, PartialEq, Eq, Structural)]
pub enum Horizontal {
    Left,
    Center,
    Right,
}

/// Vertical alignment.
#[derive(Debug, Clone, Copy, PartialEq, Eq, Structural)]
pub enum Vertical {
    Top,
    Center,
    Bottom,
}

/// The settings of a responsive row.
#[derive(Debug, Clone, Copy, PartialEq, Eq, Structural)]
pub struct FlexRow {
    /// The space between rows.
    pub column_spacing: u16,
    /// The space between the items of a row.
    pub row_spacing: u16,
    /// A number of items per row that rows get at least.
    pub max_items: Option<u16>,
    pub align_x: Horizontal,
    pub align_y: Vertical,
    pub width: Length,
    pub height: Length,
}

/// A responsive row with spacings of 4, aligned to the top left, shrinking.
pub fn flex_row() -> (r: FlexRow)
    ensures
        r == (FlexRow {
            column_spacing: 4,
            row_spacing: 4,
            max_items: None,
            align_x: Horizontal::Left,
            align_y: Vertical::Top,
            width: Length::Shrink,
            height: Length::Shrink,
        }),
{
    FlexRow {
        column_spacing: 4,
        row_spacing: 4,
        max_items: None,
        align_x: Horizontal::Left,
        align_y: Vertical::Top,
        width: Length::Shrink,
        height: Length::Shrink,
    }
}

/// Whether `n` items of width `item`, `spacing` apart, fit in `available`.
pub open spec fn fits(available: int, item: int, spacing: int, n: int) -> bool {
    (item + spacing) * n - spacing <= available
}

/// Whether `n` is the number of items to a row: at least one, and as many
/// as fit.
pub open spec fn is_row_count(available: int, item: int, spacing: int, n: int) -> bool {
    &&& n >= 1
    &&& n > 1 ==> fits(available, item, spacing, n)
    &&& !fits(available, item, spacing, n + 1)
}

/// How many items of width `item_width`, `spacing` apart, go in a row of
/// `available` whole pixels: as many as fit, and at least one. The count is
/// a `u32`, so not that many may fit.
pub fn flex_row_items(available: u32, item_width: u16, spacing: u16) -> (r: u32)
    requires
        item_width + spacing > 0,
        !fits(available as int, item_width as int, spacing as int, 0xFFFF_FFFF),
    ensures
        is_row_count(available as int, item_width as int, spacing as int, r as int),
{
    let step: u64 = item_width as u64 + spacing as u64;
    let mut items: u64 = 2;
    loop
        invariant_except_break
            1 <= step <= 0x20000,
            step == item_width + spacing,
            2 <= items <= 0xFFFF_FFFF,
            items > 2 ==> fits(available as int, item_width as int, spacing as int, items - 1),
            !fits(available as int, item_width as int, spacing as int, 0xFFFF_FFFF),
        ensures
            2 <= items <= 0xFFFF_FFFF,
            items > 2 ==> fits(available as int, item_width as int, spacing as int, items - 1),
            !fits(available as int, item_width as int, spacing as int, items as int),
        decreases 0xFFFF_FFFF - items,
    {
        assert(step * items <= 0x20000 * 0xFFFF_FFFF) by (nonlinear_arith)
            requires
                step <= 0x20000,
                items <= 0xFFFF_FFFF,
        ;
        assert(step * items >= spacing) by (nonlinear_arith)
            requires
                step >= spacing,
                items >= 2,
        ;
        let total = step * items - spacing as u64;
        if total > available as u64 {
            break;
        }
        items = items + 1;
    }
    (items - 1) as u32
}

impl FlexRow {
    /// The number of items to a row: as many as fit, at least one, and at
    /// least `max_items` when it is set.
    pub fn items_per_row(&self, available: u32, item_width: u16) -> (r: u32)
        requires
            item_width + self.row_spacing > 0,
            !fits(available as int, item_width as int, self.row_spacing as int, 0xFFFF_FFFF),
        ensures
            match self.max_items {
                None => is_row_count(available as int, item_width as int, self.row_spacing as int, r as int),
                Some(m) => exists|n: int| is_row_count(available as int, item_width as int, self.row_spacing as int, n)
                    && r == (if n < m { m as int } else { n }),
            },
    {
        let n = flex_row_items(available, item_width, self.row_spacing);
        match self.max_items {
            Some(m) => if n < m as u32 { m as u32 } else { n },
            None => n,
        }
    }
}

/// The items split into rows of `k`, the last one holding what is left.
pub open spec fn chunks<E>(items: Seq<E>, k: nat) -> Seq<Seq<E>>
    decreases items.len(),
{
    if items.len() == 0 || k == 0 {
        Seq::empty()
    } else if items.len() <= k {
        seq![items]
    } else {
        seq![items.take(k as int)] + chunks(items.skip(k as int), k)
    }
}

/// The rows put back together, one after the other.
pub open spec fn flatten<E>(rows: Seq<Seq<E>>) -> Seq<E>
    decreases rows.len(),
{
    if rows.len() == 0 {
        Seq::empty()
    } else {
        rows[0] + flatten(rows.skip(1))
    }
}

/// Splits the items into rows of `per_row`, in order, the last row holding
/// what is left.
pub fn rows<E>(items: Vec<E>, per_row: u32) -> (r: Vec<Vec<E>>)
    requires
        per_row >= 1,
    ensures
        r@.len() == chunks(items@, per_row as nat).len(),
        forall|i: int| 0 <= i < r@.len() ==> #[trigger] r@[i]@ == chunks(items@, per_row as nat)[i],
{
    let ghost all = items@;
    let k = per_row as usize;
    let mut rest = items;
    let mut r: Vec<Vec<E>> = Vec::new();
    let ghost mut done: Seq<Seq<E>> = Seq::empty();
    while rest.len() > 0
        invariant
            k == per_row,
            k >= 1,
            r@.len() == done.len(),
            forall|i: int| 0 <= i < r@.len() ==> #[trigger] r@[i]@ == done[i],
            done + chunks(rest@, k as nat) == chunks(all, k as nat),
        decreases rest@.len(),
    {
        let ghost before = rest@;
        let mut row: Vec<E> = Vec::new();
        let mut j: usize = 0;
        while j < k && rest.len() > 0
            invariant
                k >= 1,
                j <= k,
                row@.len() == j,
                row@ + rest@ == before,
            decreases k - j,
        {
            let ghost pre = rest@;
            let e = rest.remove(0);
            row.push(e);
            assert(row@ + rest@ =~= before);
            j += 1;
        }
        proof {
            if before.len() <= k {
                assert(rest@.len() == 0);
                assert(row@ =~= before);
                assert(chunks(before, k as nat) == seq![before]);
                assert(chunks(rest@, k as nat) =~= Seq::<Seq<E>>::empty());
            } else {
                assert(j == k);
                assert(row@ =~= before.take(k as int));
                assert(rest@ =~= before.skip(k as int));
            }
            assert(done.push(row@) + chunks(rest@, k as nat) =~= done + chunks(before, k as nat));
            done = done.push(row@);
        }
        r.push(row);
    }
    proof {
        assert(chunks(rest@, k as nat) =~= Seq::<Seq<E>>::empty());
        assert(done =~= chunks(all, k as nat));
    }
    r
}

/// Splitting into rows keeps every item, in order: the rows put back
/// together are the items; every row holds at least one item and at most
/// `k`, and every row but the last holds exactly `k`.
pub proof fn lemma_rows_keep_items<E>(items: Seq<E>, k: nat)
    requires
        k >= 1,
    ensures
        flatten(chunks(items, k)) == items,
        forall|i: int| 0 <= i < chunks(items, k).len() ==> 1 <= #[trigger] chunks(items, k)[i].len() <= k,
        forall|i: int| 0 <= i < chunks(items, k).len() - 1 ==> #[trigger] chunks(items, k)[i].len() == k,
    decreases items.len(),
{
    if items.len() == 0 {
    } else if items.len() <= k {
        let c = chunks(items, k);
        assert(c == seq![items]);
        assert(c.skip(1) =~= Seq::<Seq<E>>::empty());
        assert(flatten(c) =~= items + flatten(c.skip(1)));
        assert(flatten(c) =~= items);
    } else {
        let rest = items.skip(k as int);
        lemma_rows_keep_items(rest, k);
        let c = chunks(items, k);
        assert(c == seq![items.take(k as int)] + chunks(rest, k));
        assert(c.skip(1) =~= chunks(rest, k));
        assert(flatten(c) == c[0] + flatten(c.skip(1)));
        assert(flatten(c) =~= items);
        assert forall|i: int| 0 <= i < c.len() implies 1 <= #[trigger] c[i].len() <= k by {
            if i > 0 {
                assert(c[i] == chunks(rest, k)[i - 1]);
            }
        }
        assert forall|i: int| 0 <= i < c.len() - 1 implies #[trigger] c[i].len() == k by {
            if i > 0 {
                assert(c[i] == chunks(rest, k)[i - 1]);
            }
        }
    }
}

} // verus!
