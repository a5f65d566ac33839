//! Viewport resolution: which rows, and which items, are currently visible
//! for a given scroll offset. A row counts as visible as soon as one pixel of
//! it is in view, and the resolver always includes one extra trailing row as a
//! pre-fetch margin. When the scroll offset runs past the existing content,
//! both ranges clamp to the last valid row and item; the resolver never
//! reports an inverted range.

use vstd::prelude::*;
use vstd::arithmetic::div_mod::lemma_div_is_ordered;
use vstd::arithmetic::mul::lemma_mul_inequality;
use crate::geometry::GridConfig;
use crate::geometry::lemma_ceil_div_bounds;

verus! {

/// Inclusive range of row indices, 0-based.
#[derive(Clone, Copy, PartialEq, Eq, Structural, Debug)]
pub struct RowRange {
    pub first: u32,
    pub last: u32,
}

/// Inclusive range of item indices, 0-based. With zero items both bounds are
/// 0 — a degenerate single-point range, so a consumer must check the item
/// count before treating it as "item 0 is visible".
#[derive(Clone, Copy, PartialEq, Eq, Structural, Debug)]
pub struct VisibleRange {
    pub first: u32,
    pub last: u32,
}

impl RowRange {
    /// Whether `row` lies in this inclusive range.
    pub open spec fn spec_contains(self, row: int) -> bool {
        self.first <= row <= self.last
    }

    /// Whether `row` lies in this inclusive range.
    pub fn contains(&self, row: u32) -> (b: bool)
        ensures
            b == self.spec_contains(row as int),
    {
        self.first <= row && row <= self.last
    }
}

/// Index of the last row, clamped to 0 for an empty grid.
pub open spec fn spec_last_row(c: GridConfig) -> int {
    if c.spec_row_count() == 0 {
        0
    } else {
        c.spec_row_count() - 1
    }
}

/// Number of rows that fit (even partially) in the viewport:
/// `ceil(viewport_height / outer_row_height)`.
pub open spec fn spec_rows_in_viewport(c: GridConfig) -> int {
    (c.viewport_height + c.spec_outer_row_height() - 1) / c.spec_outer_row_height()
}

/// Topmost visible row: the rows fully scrolled past, clamped to the last row.
pub open spec fn spec_top_row(c: GridConfig, offset: int) -> int {
    let skipped = offset / c.spec_outer_row_height();
    if skipped < spec_last_row(c) {
        skipped
    } else {
        spec_last_row(c)
    }
}

/// Bottommost visible row: the top row plus the rows in the viewport — one
/// more than strictly fits, as a pre-fetch margin — clamped to the last row.
pub open spec fn spec_bottom_row(c: GridConfig, offset: int) -> int {
    let below = spec_top_row(c, offset) + spec_rows_in_viewport(c);
    if below < spec_last_row(c) {
        below
    } else {
        spec_last_row(c)
    }
}

/// Index of the last item, clamped to 0 for an empty grid.
pub open spec fn spec_last_item(c: GridConfig) -> int {
    if c.item_count == 0 {
        0
    } else {
        c.item_count - 1
    }
}

/// First visible item: the first cell of the top visible row, clamped to the
/// last item.
pub open spec fn spec_first_item(c: GridConfig, offset: int) -> int {
    let first = spec_top_row(c, offset) * c.spec_cells_per_row();
    if first < spec_last_item(c) {
        first
    } else {
        spec_last_item(c)
    }
}

/// Last visible item: the first visible item plus one full cell count per
/// visible row, clamped to the last item.
pub open spec fn spec_last_item_visible(c: GridConfig, offset: int) -> int {
    let rows = spec_bottom_row(c, offset) - spec_top_row(c, offset) + 1;
    let last = spec_first_item(c, offset) + rows * c.spec_cells_per_row() - 1;
    if last < spec_last_item(c) {
        last
    } else {
        spec_last_item(c)
    }
}

/// Number of rows that fit (even partially) in the viewport; independent of
/// the scroll offset and the item count.
pub fn rows_in_viewport(c: &GridConfig) -> (r: u32)
    requires
        c.wf(),
    ensures
        r == spec_rows_in_viewport(*c),
        r <= c.viewport_height,
{
    let outer: u64 = c.outer_row_height() as u64;
    let vh: u64 = c.viewport_height as u64;
    let r: u64 = (vh + outer - 1) / outer;
    proof {
        lemma_ceil_div_bounds(vh as int, outer as int);
    }
    r as u32
}

/// The inclusive range of visible rows at `scroll_offset`. The range is never
/// inverted, stays within the rows that exist, and is `(0, 0)` for an empty
/// grid.
pub fn visible_rows(c: &GridConfig, scroll_offset: u64) -> (r: RowRange)
    requires
        c.wf(),
    ensures
        r.first == spec_top_row(*c, scroll_offset as int),
        r.last == spec_bottom_row(*c, scroll_offset as int),
        r.first <= r.last,
        r.last <= spec_last_row(*c),
        c.item_count == 0 ==> r.first == 0 && r.last == 0,
{
    let rc: u32 = c.row_count();
    let last_row: u32 = if rc == 0 {
        0
    } else {
        rc - 1
    };
    let outer: u64 = c.outer_row_height() as u64;
    let skipped: u64 = scroll_offset / outer;
    let top: u32 = if skipped < last_row as u64 {
        skipped as u32
    } else {
        last_row
    };
    let riv: u32 = rows_in_viewport(c);
    let below: u64 = top as u64 + riv as u64;
    let bottom: u32 = if below < last_row as u64 {
        below as u32
    } else {
        last_row
    };
    RowRange { first: top, last: bottom }
}

/// The inclusive range of visible item indices at `scroll_offset`: the cells
/// of the visible rows, clamped to the items that exist. The range is never
/// inverted; it is `(0, 0)` for an empty grid (a degenerate range, see
/// [`VisibleRange`]).
pub fn visible_items(c: &GridConfig, scroll_offset: u64) -> (r: VisibleRange)
    requires
        c.wf(),
    ensures
        r.first == spec_first_item(*c, scroll_offset as int),
        r.last == spec_last_item_visible(*c, scroll_offset as int),
        r.first <= r.last,
        c.item_count >= 1 ==> r.last < c.item_count,
        c.item_count == 0 ==> r.first == 0 && r.last == 0,
{
    let rows = visible_rows(c, scroll_offset);
    let cpr: u32 = c.cells_per_row();
    let last_item: u32 = if c.item_count == 0 {
        0
    } else {
        c.item_count - 1
    };
    proof {
        assert((rows.first as int) * (cpr as int) <= 0xffff_fffe_0000_0001int
            && (rows.first as int) * (cpr as int) >= 0) by (nonlinear_arith)
            requires
                0 <= rows.first as int <= 0xffff_ffffint,
                0 <= cpr as int <= 0xffff_ffffint,
        ;
    }
    let first_cell: u64 = rows.first as u64 * cpr as u64;
    let first: u32 = if first_cell < last_item as u64 {
        first_cell as u32
    } else {
        last_item
    };
    let visible_row_count: u64 = rows.last as u64 - rows.first as u64 + 1;
    proof {
        assert((visible_row_count as int) * (cpr as int) <= 0xffff_ffff_0000_0000int
            && (visible_row_count as int) * (cpr as int) >= 1) by (nonlinear_arith)
            requires
                1 <= visible_row_count as int <= 0x1_0000_0000int,
                1 <= cpr as int <= 0xffff_ffffint,
        ;
    }
    let span: u64 = visible_row_count * cpr as u64;
    let last_cell: u64 = first as u64 + span - 1;
    let last: u32 = if last_cell < last_item as u64 {
        last_cell as u32
    } else {
        last_item
    };
    VisibleRange { first, last }
}

/// Scrolling further down never scrolls the visible window back up: both the
/// top visible row and the first visible item are monotonic in the scroll
/// offset.
pub proof fn lemma_visible_items_monotonic(c: GridConfig, offset1: int, offset2: int)
    requires
        c.wf(),
        0 <= offset1 <= offset2,
    ensures
        spec_top_row(c, offset1) <= spec_top_row(c, offset2),
        spec_first_item(c, offset1) <= spec_first_item(c, offset2),
{
    lemma_div_is_ordered(offset1, offset2, c.spec_outer_row_height());
    lemma_mul_inequality(
        spec_top_row(c, offset1),
        spec_top_row(c, offset2),
        c.spec_cells_per_row(),
    );
}

} // verus!
