use vstd::prelude::*;

use crate::text::decimal;
use crate::text::push_decimal;
use crate::text::push_text;

verus! {

/// Number of columns that fit: `floor((width - 2 * padding + gap) / (cell + gap))`, at least 1.
pub open spec fn column_count_spec(viewport_width: int, cell_size: int, gap: int, padding: int) -> int {
    let fit = viewport_width - 2 * padding + gap;
    if fit <= 0 || cell_size + gap == 0 {
        1
    } else if fit / (cell_size + gap) < 1 {
        1
    } else {
        fit / (cell_size + gap)
    }
}

pub fn column_count(viewport_width: u32, cell_size: u32, gap: u32, padding: u32) -> (r: u64)
    ensures
        r as int == column_count_spec(viewport_width as int, cell_size as int, gap as int, padding as int),
        r >= 1,
{
    let span: u64 = viewport_width as u64 + gap as u64;
    let margin: u64 = 2 * (padding as u64);
    let step: u64 = cell_size as u64 + gap as u64;
    if span <= margin || step == 0 {
        return 1;
    }
    let n: u64 = (span - margin) / step;
    if n < 1 {
        1
    } else {
        n
    }
}

/// Saturation, in percent, of a cell's base color.
pub const BASE_SATURATION: u32 = 70;

/// Value, in percent, of a cell's base color.
pub const BASE_VALUE: u32 = 60;

/// Saturation, in percent, of a cell's color under the pointer.
pub const HOVER_SATURATION: u32 = 80;

/// Value, in percent, of a cell's color under the pointer.
pub const HOVER_VALUE: u32 = 80;

/// One grid cell: its row-major position and the hue, in degrees, of its color.
#[derive(Clone, Copy, Debug, PartialEq, Eq)]
pub struct Cell {
    pub index: u64,
    pub hue: u32,
}

/// Hue of the cell at `index` in a grid of `total` cells: a full sweep over the grid,
/// `index / total * 360` rounded down, with an empty grid counted as one cell.
pub open spec fn hue_spec(index: int, total: int) -> int {
    if total < 1 { index * 360 } else { (index * 360) / total }
}

/// The cell at `index` in a grid of `total` cells.
pub fn cell_at(index: u64, total: u64) -> (c: Cell)
    requires
        index < total,
    ensures
        c.index == index,
        c.hue as int == hue_spec(index as int, total as int),
        c.hue < 360,
{
    let scaled: u128 = index as u128 * 360;
    let hue: u128 = scaled / (total as u128);
    assert(hue < 360) by (nonlinear_arith)
        requires hue == scaled / (total as u128), scaled == index * 360, index < total;
    Cell { index, hue: hue as u32 }
}

/// All cells of a grid with the given rows and columns, in row-major order.
pub fn generate(row_count: u64, column_count: u64) -> (cells: Vec<Cell>)
    requires
        row_count * column_count <= u64::MAX,
    ensures
        cells@.len() == row_count * column_count,
        forall|i: int| 0 <= i < cells@.len() ==> #[trigger] cells@[i].index as int == i
            && cells@[i].hue as int == hue_spec(i, row_count * column_count),
{
    let total: u64 = row_count * column_count;
    let mut cells: Vec<Cell> = Vec::new();
    let mut i: u64 = 0;
    while i < total
        invariant
            i <= total,
            total == row_count * column_count,
            cells@.len() == i,
            forall|j: int| 0 <= j < cells@.len() ==> #[trigger] cells@[j].index as int == j
                && cells@[j].hue as int == hue_spec(j, total as int),
        decreases total - i,
    {
        let c = cell_at(i, total);
        cells.push(c);
        i = i + 1;
    }
    cells
}

/// The overlay's description of the grid: `Grid: RxC (N cells) @ Spx`.
pub open spec fn overlay_label_spec(rows: nat, cols: nat, cell_size: nat) -> Seq<char> {
    "Grid: "@ + decimal(rows) + "x"@ + decimal(cols) + " ("@ + decimal(rows * cols)
        + " cells) @ "@ + decimal(cell_size) + "px"@
}

/// The overlay's description of a grid of `rows` by `cols` cells of edge `cell_size`.
pub fn overlay_label(rows: u64, cols: u64, cell_size: u32) -> (r: String)
    requires
        rows * cols <= u64::MAX,
    ensures
        r@ == overlay_label_spec(rows as nat, cols as nat, cell_size as nat),
{
    let mut s = String::new();
    push_text(&mut s, "Grid: ");
    push_decimal(&mut s, rows);
    push_text(&mut s, "x");
    push_decimal(&mut s, cols);
    push_text(&mut s, " (");
    push_decimal(&mut s, rows * cols);
    push_text(&mut s, " cells) @ ");
    push_decimal(&mut s, cell_size as u64);
    push_text(&mut s, "px");
    assert(s@ =~= overlay_label_spec(rows as nat, cols as nat, cell_size as nat));
    s
}

} // verus!
