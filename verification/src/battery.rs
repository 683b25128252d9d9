//! Battery voltage to percentage mapping.
//!
//! The serial telemetry bridge reports the battery voltage of the whole pack
//! in millivolts. The percentage is a linear map of the per-cell voltage
//! between an empty and a full threshold, clamped to the range 0 to 100.

use vstd::prelude::*;

verus! {

/// Per-cell voltage in millivolts at which the battery counts as empty.
pub const BATT_EMPTY_MV: u32 = 3500;

/// Per-cell voltage in millivolts at which the battery counts as full.
pub const BATT_FULL_MV: u32 = 4050;

/// Number of cells in the battery pack.
pub const BATT_CELLS: u32 = 3;

/// Percentage that a single cell's voltage maps to: 0 at or below the empty
/// threshold, 100 at or above the full threshold, linear in between.
pub open spec fn spec_cell_percentage(cell_mv: int) -> int {
    if cell_mv <= BATT_EMPTY_MV {
        0
    } else if cell_mv >= BATT_FULL_MV {
        100
    } else {
        (cell_mv - BATT_EMPTY_MV) * 100 / ((BATT_FULL_MV - BATT_EMPTY_MV) as int)
    }
}

/// Percentage for a whole-pack reading: the pack voltage is divided evenly
/// over the cells, and the per-cell voltage is mapped.
pub open spec fn spec_battery_percentage(pack_mv: int) -> int {
    spec_cell_percentage(pack_mv / (BATT_CELLS as int))
}

/// Maps a pack voltage reading in millivolts to a battery percentage.
pub fn battery_percentage(pack_mv: u16) -> (pct: i32)
    ensures
        pct == spec_battery_percentage(pack_mv as int),
        0 <= pct <= 100,
{
    let cell_mv: u32 = pack_mv as u32 / BATT_CELLS;
    if cell_mv <= BATT_EMPTY_MV {
        0
    } else if cell_mv >= BATT_FULL_MV {
        100
    } else {
        proof {
            lemma_cell_percentage_bounds(cell_mv as int);
        }
        ((cell_mv - BATT_EMPTY_MV) * 100 / (BATT_FULL_MV - BATT_EMPTY_MV)) as i32
    }
}

/// The mapping never leaves the range 0 to 100, maps every voltage at or
/// below the empty threshold to 0, and every voltage at or above the full
/// threshold to 100.
pub proof fn lemma_cell_percentage_bounds(cell_mv: int)
    ensures
        0 <= spec_cell_percentage(cell_mv) <= 100,
        cell_mv <= BATT_EMPTY_MV ==> spec_cell_percentage(cell_mv) == 0,
        cell_mv >= BATT_FULL_MV ==> spec_cell_percentage(cell_mv) == 100,
{
    if BATT_EMPTY_MV < cell_mv < BATT_FULL_MV {
        let num = (cell_mv - BATT_EMPTY_MV) * 100;
        assert(0 < num <= 54900) by (nonlinear_arith)
            requires 3500 < cell_mv < 4050 && num == (cell_mv - 3500) * 100;
        assert(0 <= num / 550 <= 100) by (nonlinear_arith)
            requires 0 < num <= 54900;
    }
}

/// The mapping is monotonic: a higher voltage never maps to a lower
/// percentage.
pub proof fn lemma_cell_percentage_monotonic(lo_mv: int, hi_mv: int)
    requires
        lo_mv <= hi_mv,
    ensures
        spec_cell_percentage(lo_mv) <= spec_cell_percentage(hi_mv),
{
    lemma_cell_percentage_bounds(lo_mv);
    lemma_cell_percentage_bounds(hi_mv);
    if BATT_EMPTY_MV < lo_mv < BATT_FULL_MV && BATT_EMPTY_MV < hi_mv < BATT_FULL_MV {
        let lo_num = (lo_mv - BATT_EMPTY_MV) * 100;
        let hi_num = (hi_mv - BATT_EMPTY_MV) * 100;
        assert(lo_num <= hi_num) by (nonlinear_arith)
            requires
                lo_mv <= hi_mv,
                lo_num == (lo_mv - 3500) * 100,
                hi_num == (hi_mv - 3500) * 100;
        assert(lo_num / 550 <= hi_num / 550) by (nonlinear_arith)
            requires lo_num <= hi_num;
    }
}

/// Monotonicity lifted to whole-pack readings.
pub proof fn lemma_battery_percentage_monotonic(lo_mv: int, hi_mv: int)
    requires
        lo_mv <= hi_mv,
    ensures
        spec_battery_percentage(lo_mv) <= spec_battery_percentage(hi_mv),
{
    assert(lo_mv / (BATT_CELLS as int) <= hi_mv / (BATT_CELLS as int)) by (nonlinear_arith)
        requires lo_mv <= hi_mv;
    lemma_cell_percentage_monotonic(lo_mv / (BATT_CELLS as int), hi_mv / (BATT_CELLS as int));
}

} // verus!
