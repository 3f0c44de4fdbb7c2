//! Row scanning of the 5×5 LED matrix: one row is powered at a time
//! (rows are active-high sources), its LEDs are selected through the column
//! lines (active-low sinks).
//!
//! One scan step, as [`scan_row`] lays it out: drive the column lines of the
//! row first, then power that row alone, hold it for a moment, drop it, and
//! go on with the next row (0 to 4, then 0 again).

use vstd::prelude::*;

verus! {

/// Side of the LED matrix.
pub const LEDS: usize = 5;

/// The level of each column line while row `row` is powered: `true`
/// (high, dark) unless the LED at that row and column is lit, which pulls
/// its column low.
pub fn column_levels(frame: &[[bool; 5]; 5], row: usize) -> (high: [bool; 5])
    requires
        row < LEDS,
    ensures
        forall|c: int| 0 <= c < LEDS ==> #[trigger] high@[c] == !frame@[row as int]@[c],
{
    let lit = frame[row];
    let mut high = [true; 5];
    let mut c: usize = 0;
    while c < LEDS
        invariant
            c <= LEDS,
            lit == frame@[row as int],
            forall|k: int| 0 <= k < c ==> #[trigger] high@[k] == !lit@[k],
        decreases LEDS - c,
    {
        high[c] = !lit[c];
        c = c + 1;
    }
    high
}

/// The pin levels of one scan step and the row that follows it.
pub struct RowDrive {
    /// Column levels to set first (`true` = high, LED dark).
    pub columns_high: [bool; 5],
    /// Row levels to set after the columns: only the scanned row is high.
    pub rows_high: [bool; 5],
    /// The row scanned next.
    pub next_row: usize,
}

/// The scan step for `row`: its column levels from `frame`, exactly that row
/// powered, and the next row in order (wrapping from 4 to 0).
pub fn scan_row(frame: &[[bool; 5]; 5], row: usize) -> (d: RowDrive)
    requires
        row < LEDS,
    ensures
        forall|c: int| 0 <= c < LEDS ==> #[trigger] d.columns_high@[c] == !frame@[row as int]@[c],
        forall|r: int| 0 <= r < LEDS ==> #[trigger] d.rows_high@[r] == (r == row as int),
        d.next_row < LEDS,
        d.next_row as int == (row as int + 1) % LEDS as int,
{
    let columns_high = column_levels(frame, row);
    let mut rows_high = [false; 5];
    rows_high[row] = true;
    let next_row = if row + 1 == LEDS {
        0
    } else {
        row + 1
    };
    RowDrive { columns_high, rows_high, next_row }
}

} // verus!
