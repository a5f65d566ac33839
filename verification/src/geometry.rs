//! Grid layout metrics: how many cells fit in a row, how tall a row is, how
//! many rows a given item count occupies, and the total scrollable height.
//! All operations are pure functions of an immutable [`GridConfig`].

use vstd::prelude::*;
use vstd::arithmetic::div_mod::{
    lemma_basic_div, lemma_div_is_ordered, lemma_div_multiples_vanish, lemma_div_pos_is_pos,
    lemma_fundamental_div_mod, lemma_mod_division_less_than_divisor,
};
use vstd::arithmetic::mul::{lemma_mul_is_commutative, lemma_mul_nonnegative};

verus! {

/// Geometry of one layout pass: viewport size, cell size and spacing, and the
/// number of items laid out. All lengths are in pixels.
#[derive(Clone, Copy, PartialEq, Eq, Structural, Debug)]
pub struct GridConfig {
    pub viewport_width: u32,
    pub viewport_height: u32,
    /// Side length of one (square) cell; always at least 1.
    pub cell_size: u32,
    /// Margin around each cell.
    pub cell_margin: u32,
    /// Padding between consecutive rows (not after the last one).
    pub row_padding: u32,
    /// Number of items in the logical sequence.
    pub item_count: u32,
}

/// Why a geometry configuration was rejected.
#[derive(Clone, Copy, PartialEq, Eq, Structural, Debug)]
pub enum ConfigError {
    /// The cell size was zero; every layout formula divides by it.
    CellSizeZero,
    /// A row's outer height would not fit in 32 bits.
    GeometryTooLarge,
}

impl GridConfig {
    /// A configuration the layout formulas are defined on: the cell has
    /// positive size and a full row height fits in 32 bits.
    pub open spec fn wf(self) -> bool {
        &&& self.cell_size >= 1
        &&& self.cell_size + 2 * self.cell_margin + self.row_padding <= u32::MAX
    }

    /// Number of cells in one row: at least 1, even in a viewport narrower
    /// than a single cell.
    pub open spec fn spec_cells_per_row(self) -> int {
        let per = self.viewport_width as int / (self.cell_size as int + self.cell_margin as int);
        if per < 1 {
            1
        } else {
            per
        }
    }

    /// Height of one row including the inter-row padding below it.
    pub open spec fn spec_outer_row_height(self) -> int {
        self.cell_size + 2 * self.cell_margin + self.row_padding
    }

    /// Height of one row without the inter-row padding.
    pub open spec fn spec_inner_row_height(self) -> int {
        self.cell_size + 2 * self.cell_margin
    }

    /// Number of rows needed for `item_count` items: `ceil(item_count / cells_per_row)`.
    pub open spec fn spec_row_count(self) -> int {
        (self.item_count + self.spec_cells_per_row() - 1) / self.spec_cells_per_row()
    }

    /// Total height of the laid-out content; padding exists only between
    /// rows, so the trailing padding is not counted, and an empty grid has
    /// height 0 rather than a negative one.
    pub open spec fn spec_total_content_height(self) -> int {
        if self.spec_row_count() == 0 {
            0
        } else {
            self.spec_row_count() * self.spec_outer_row_height() - self.row_padding
        }
    }

    /// Validates a configuration. Rejects a zero cell size, and dimensions so
    /// large that a row's outer height would overflow; accepts everything
    /// else, returning exactly the given fields.
    pub fn new(
        viewport_width: u32,
        viewport_height: u32,
        cell_size: u32,
        cell_margin: u32,
        row_padding: u32,
        item_count: u32,
    ) -> (r: Result<GridConfig, ConfigError>)
        ensures
            r is Ok <==> cell_size >= 1 && cell_size + 2 * cell_margin + row_padding <= u32::MAX,
            r is Ok ==> r == Ok::<GridConfig, ConfigError>(
                GridConfig { viewport_width, viewport_height, cell_size, cell_margin, row_padding, item_count },
            ),
            r matches Ok(c) ==> c.wf(),
            cell_size == 0 ==> r == Err::<GridConfig, ConfigError>(ConfigError::CellSizeZero),
            cell_size >= 1 && cell_size + 2 * cell_margin + row_padding > u32::MAX
                ==> r == Err::<GridConfig, ConfigError>(ConfigError::GeometryTooLarge),
    {
        if cell_size == 0 {
            return Err(ConfigError::CellSizeZero);
        }
        let outer: u64 = cell_size as u64 + 2 * (cell_margin as u64) + row_padding as u64;
        if outer > u32::MAX as u64 {
            return Err(ConfigError::GeometryTooLarge);
        }
        Ok(GridConfig { viewport_width, viewport_height, cell_size, cell_margin, row_padding, item_count })
    }

    /// True exactly when the layout formulas are defined on this
    /// configuration; lets an unverified caller check before computing.
    pub fn is_well_formed(&self) -> (b: bool)
        ensures
            b == self.wf(),
    {
        self.cell_size >= 1
            && self.cell_size as u64 + 2 * (self.cell_margin as u64) + self.row_padding as u64
                <= u32::MAX as u64
    }

    /// Number of cells in one row; never less than 1.
    pub fn cells_per_row(&self) -> (r: u32)
        requires
            self.wf(),
        ensures
            r == self.spec_cells_per_row(),
            1 <= r,
    {
        let denom: u32 = self.cell_size + self.cell_margin;
        let per: u32 = self.viewport_width / denom;
        if per == 0 {
            1
        } else {
            per
        }
    }

    /// Height of one row including the padding below it; never less than 1.
    pub fn outer_row_height(&self) -> (r: u32)
        requires
            self.wf(),
        ensures
            r == self.spec_outer_row_height(),
            1 <= r,
    {
        self.cell_size + 2 * self.cell_margin + self.row_padding
    }

    /// Height of one row without the inter-row padding; never less than 1.
    pub fn inner_row_height(&self) -> (r: u32)
        requires
            self.wf(),
        ensures
            r == self.spec_inner_row_height(),
            1 <= r,
    {
        self.cell_size + 2 * self.cell_margin
    }

    /// Number of rows the items occupy: 0 for an empty grid, else the least
    /// count of full rows covering every item.
    pub fn row_count(&self) -> (r: u32)
        requires
            self.wf(),
        ensures
            r == self.spec_row_count(),
            r <= self.item_count,
            (r == 0) <==> (self.item_count == 0),
    {
        let per: u32 = self.cells_per_row();
        let n: u64 = self.item_count as u64;
        let p: u64 = per as u64;
        let rc: u64 = (n + p - 1) / p;
        proof {
            lemma_ceil_div_bounds(n as int, p as int);
        }
        rc as u32
    }

    /// Total scrollable height of the content in pixels.
    pub fn total_content_height(&self) -> (r: u64)
        requires
            self.wf(),
        ensures
            r == self.spec_total_content_height(),
    {
        let rc: u64 = self.row_count() as u64;
        let outer: u64 = self.outer_row_height() as u64;
        if rc == 0 {
            0
        } else {
            proof {
                lemma_mul_bounds_for_height(rc as int, outer as int, self.row_padding as int);
            }
            rc * outer - self.row_padding as u64
        }
    }
}

/// How many rows a grid has, relative to its item count: the rows cover every
/// item, and every row but possibly the last is needed — one row fewer would
/// leave some item without a cell.
pub proof fn lemma_row_count_bounds(c: GridConfig)
    requires
        c.wf(),
    ensures
        c.spec_row_count() * c.spec_cells_per_row() >= c.item_count,
        c.spec_row_count() > 0
            ==> (c.spec_row_count() - 1) * c.spec_cells_per_row() < c.item_count,
        0 <= c.spec_row_count() <= c.item_count,
        (c.spec_row_count() == 0) <==> (c.item_count == 0),
{
    let n = c.item_count as int;
    let p = c.spec_cells_per_row();
    let q = c.spec_row_count();
    lemma_ceil_div_bounds(n, p);
    lemma_mul_is_commutative(p, q);
    lemma_mul_is_commutative(p, q - 1);
}

/// Bounds on the ceiling division `(n + p - 1) / p` for `n >= 0`, `p >= 1`:
/// it is the least `q` with `p * q >= n`.
pub(crate) proof fn lemma_ceil_div_bounds(n: int, p: int)
    requires
        0 <= n,
        1 <= p,
    ensures
        0 <= (n + p - 1) / p <= n,
        p * ((n + p - 1) / p) >= n,
        p * ((n + p - 1) / p) <= n + p - 1,
        n >= 1 ==> p * ((n + p - 1) / p - 1) < n,
        ((n + p - 1) / p == 0) <==> (n == 0),
{
    let q = (n + p - 1) / p;
    lemma_div_pos_is_pos(n + p - 1, p);
    lemma_fundamental_div_mod(n + p - 1, p);
    lemma_mod_division_less_than_divisor(n + p - 1, p);
    // n + p - 1 == p * q + r with 0 <= r < p, so n <= p * q <= n + p - 1.
    assert(p * (q - 1) == p * q - p) by (nonlinear_arith);
    if n == 0 {
        lemma_basic_div(p - 1, p);
    } else {
        // q <= n, by comparing with (p * n) / p == n.
        lemma_mul_nonnegative(p - 1, n - 1);
        assert((p - 1) * (n - 1) == p * n - p - n + 1) by (nonlinear_arith);
        lemma_div_is_ordered(n + p - 1, p * n, p);
        lemma_div_multiples_vanish(n, p);
    }
    if q == 0 {
        assert(p * q == 0) by (nonlinear_arith)
            requires
                q == 0,
        ;
    }
}

/// The product of a positive row count and a row height of at least the
/// padding stays within `u64` and above the padding.
proof fn lemma_mul_bounds_for_height(rc: int, outer: int, padding: int)
    requires
        1 <= rc <= u32::MAX,
        1 <= outer <= u32::MAX,
        0 <= padding <= outer,
    ensures
        rc * outer >= outer,
        rc * outer <= u64::MAX,
{
    assert(rc * outer >= outer && rc * outer <= 0xffff_ffff * 0xffff_ffff) by (nonlinear_arith)
        requires
            1 <= rc <= 0xffff_ffffint,
            1 <= outer <= 0xffff_ffffint,
    ;
}

} // verus!
