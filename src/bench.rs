use vstd::prelude::*;

use crate::grid::column_count;
use crate::grid::column_count_spec;

verus! {

/// Smallest cell edge, in layout units.
pub const MIN_CELL_SIZE: u32 = 8;

/// Largest cell edge, in layout units.
pub const MAX_CELL_SIZE: u32 = 128;

/// Amount by which one resize step changes the cell edge.
pub const CELL_SIZE_STEP: u32 = 4;

/// Space between neighbouring cells.
pub const CELL_GAP: u32 = 4;

/// Space between the viewport edge and the grid.
pub const GRID_PADDING: u32 = 16;

/// Rows shown when nothing else is configured.
pub const DEFAULT_ROWS: u64 = 50;

/// Cell edge when nothing else is configured.
pub const DEFAULT_CELL_SIZE: u32 = 32;

/// The benchmark's mutable configuration.
pub struct GridBench {
    pub row_count: u64,
    pub cell_size: u32,
    pub enable_hover: bool,
    pub enable_click: bool,
    pub step_size: u64,
}

/// Row count after one `add_row`.
pub open spec fn added_rows(rows: int, step: int) -> int {
    rows + step
}

/// Row count after one `remove_row`: the difference, but never below one.
pub open spec fn removed_rows(rows: int, step: int) -> int {
    if rows - step < 1 { 1 } else { rows - step }
}

/// Cell edge after one `increase_cell_size`.
pub open spec fn grown_size(size: int) -> int {
    if size + 4 > 128 { 128 } else { size + 4 }
}

/// Cell edge after one `decrease_cell_size`.
pub open spec fn shrunk_size(size: int) -> int {
    if size - 4 < 8 { 8 } else { size - 4 }
}

/// Cell edge after `n` calls of `increase_cell_size`.
pub open spec fn grown_times(size: int, n: nat) -> int
    decreases n,
{
    if n == 0 { size } else { grown_size(grown_times(size, (n - 1) as nat)) }
}

/// Cell edge after `n` calls of `decrease_cell_size`.
pub open spec fn shrunk_times(size: int, n: nat) -> int
    decreases n,
{
    if n == 0 { size } else { shrunk_size(shrunk_times(size, (n - 1) as nat)) }
}

impl GridBench {
    /// At least one row is always shown.
    pub open spec fn wf(&self) -> bool {
        self.row_count >= 1
    }

    /// A configuration with the given settings; a row count of zero becomes one.
    pub fn new(row_count: u64, cell_size: u32, enable_hover: bool, enable_click: bool, step_size: u64) -> (r: GridBench)
        ensures
            r.wf(),
            r.row_count == if row_count == 0 { 1 } else { row_count },
            r.cell_size == cell_size,
            r.enable_hover == enable_hover,
            r.enable_click == enable_click,
            r.step_size == step_size,
    {
        GridBench {
            row_count: if row_count == 0 { 1 } else { row_count },
            cell_size,
            enable_hover,
            enable_click,
            step_size,
        }
    }

    /// Adds `step_size` rows.
    pub fn add_row(&mut self)
        requires
            old(self).wf(),
            old(self).row_count + old(self).step_size <= u64::MAX,
        ensures
            final(self).wf(),
            final(self).row_count == added_rows(old(self).row_count as int, old(self).step_size as int),
            final(self).cell_size == old(self).cell_size,
            final(self).step_size == old(self).step_size,
            final(self).enable_hover == old(self).enable_hover,
            final(self).enable_click == old(self).enable_click,
    {
        self.row_count = self.row_count + self.step_size;
    }

    /// Removes `step_size` rows, keeping at least one.
    pub fn remove_row(&mut self)
        requires
            old(self).wf(),
        ensures
            final(self).wf(),
            final(self).row_count == removed_rows(old(self).row_count as int, old(self).step_size as int),
            final(self).cell_size == old(self).cell_size,
            final(self).step_size == old(self).step_size,
            final(self).enable_hover == old(self).enable_hover,
            final(self).enable_click == old(self).enable_click,
    {
        let rest = self.row_count.saturating_sub(self.step_size);
        self.row_count = if rest < 1 { 1 } else { rest };
    }

    /// Grows the cell edge by one step, up to the largest size.
    pub fn increase_cell_size(&mut self)
        ensures
            final(self).cell_size == grown_size(old(self).cell_size as int),
            final(self).cell_size <= MAX_CELL_SIZE,
            final(self).row_count == old(self).row_count,
            final(self).step_size == old(self).step_size,
            final(self).enable_hover == old(self).enable_hover,
            final(self).enable_click == old(self).enable_click,
    {
        self.cell_size = if self.cell_size >= MAX_CELL_SIZE - CELL_SIZE_STEP {
            MAX_CELL_SIZE
        } else {
            self.cell_size + CELL_SIZE_STEP
        };
    }

    /// Shrinks the cell edge by one step, down to the smallest size.
    pub fn decrease_cell_size(&mut self)
        ensures
            final(self).cell_size == shrunk_size(old(self).cell_size as int),
            final(self).cell_size >= MIN_CELL_SIZE,
            final(self).row_count == old(self).row_count,
            final(self).step_size == old(self).step_size,
            final(self).enable_hover == old(self).enable_hover,
            final(self).enable_click == old(self).enable_click,
    {
        self.cell_size = if self.cell_size <= MIN_CELL_SIZE + CELL_SIZE_STEP {
            MIN_CELL_SIZE
        } else {
            self.cell_size - CELL_SIZE_STEP
        };
    }

    /// Columns that fit in a viewport of the given width with the current cell edge.
    pub fn calculate_col_count(&self, window_width: u32) -> (r: u64)
        ensures
            r as int == column_count_spec(window_width as int, self.cell_size as int, CELL_GAP as int, GRID_PADDING as int),
    {
        column_count(window_width, self.cell_size, CELL_GAP, GRID_PADDING)
    }
}

/// Adding rows and then removing as many gives back the row count one started with.
pub proof fn lemma_add_then_remove_restores(rows: int, step: int)
    requires
        rows >= 1,
        step >= 0,
    ensures
        removed_rows(added_rows(rows, step), step) == rows,
{
}

/// Removing rows and then adding as many restores the count exactly when the floor of one
/// was not reached: from one row with a positive step the count grows by the step.
pub proof fn lemma_remove_then_add(rows: int, step: int)
    requires
        rows >= 1,
        step >= 0,
    ensures
        rows - step >= 1 ==> added_rows(removed_rows(rows, step), step) == rows,
        rows == 1 && step > 0 ==> added_rows(removed_rows(rows, step), step) == 1 + step,
{
}

/// However often the cell edge is grown, at least once, it never exceeds the largest size;
/// however often it is shrunk, at least once, it never falls below the smallest.
pub proof fn lemma_cell_size_bounds(size: int, n: nat)
    requires
        n >= 1,
    ensures
        grown_times(size, n) <= 128,
        shrunk_times(size, n) >= 8,
{
}

} // verus!
