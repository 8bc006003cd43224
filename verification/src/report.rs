//! Row selection for the CSV record of a finished run.
//!
//! A run's CSV record holds one row per accepted step — the step's index
//! with the point and energy recorded under that index in the trajectory —
//! and, exactly when the final step was not itself accepted, a closing row
//! under the final step's number carrying the last chain state.  Only the
//! selection of rows lives here; turning rows into text and writing the
//! file is the caller's formatting work.

use vstd::prelude::*;

use crate::engine::{copy_point, points_of, result_wf, McResult};

verus! {

/// One row of the CSV record: a step index, a recorded point and its
/// energy (both as bit patterns).
#[derive(Debug, PartialEq, Eq)]
pub struct CsvRow {
    /// The step index the row is filed under.
    pub step: u64,
    /// The recorded point.
    pub x: Vec<u64>,
    /// The recorded energy.
    pub e: u64,
}

/// Whether the record needs a closing row: the final step was not itself
/// accepted, so the last chain state has no row of its own.
pub open spec fn needs_closing_row(r: McResult) -> bool {
    r.accepted_steps@.len() == 0 || r.accepted_steps@.last() != r.n_steps - 1
}

/// Selects the rows of a finished run's CSV record.
pub fn csv_rows(res: &McResult) -> (rows: Vec<CsvRow>)
    requires
        result_wf(*res),
    ensures
        rows@.len() == res.accepted_steps@.len() + if needs_closing_row(*res) {
            1int
        } else {
            0int
        },
        forall|k: int|
            0 <= k < res.accepted_steps@.len() ==> {
                &&& (#[trigger] rows@[k]).step == res.accepted_steps@[k]
                &&& rows@[k].x@ == points_of(res.x_vals)[res.accepted_steps@[k] as int]
                &&& rows@[k].e == res.e_vals@[res.accepted_steps@[k] as int]
            },
        needs_closing_row(*res) ==> {
            &&& rows@.last().step == res.n_steps
            &&& rows@.last().x@ == points_of(res.x_vals)[res.n_steps as int]
            &&& rows@.last().e == res.e_vals@[res.n_steps as int]
        },
{
    let mut rows: Vec<CsvRow> = Vec::new();
    let n = res.accepted_steps.len();
    let total = res.x_vals.len();
    let mut i: usize = 0;
    while i < n
        invariant
            result_wf(*res),
            n == res.accepted_steps@.len(),
            total == res.x_vals@.len(),
            i <= n,
            rows@.len() == i,
            forall|k: int|
                0 <= k < i ==> {
                    &&& (#[trigger] rows@[k]).step == res.accepted_steps@[k]
                    &&& rows@[k].x@ == points_of(res.x_vals)[res.accepted_steps@[k] as int]
                    &&& rows@[k].e == res.e_vals@[res.accepted_steps@[k] as int]
                },
        decreases n - i,
    {
        proof {
            assert(res.accepted_steps@[i as int] < res.n_steps);
        }
        let step = res.accepted_steps[i] as usize;
        rows.push(
            CsvRow { step: res.accepted_steps[i], x: copy_point(&res.x_vals[step]), e: res.e_vals[step] },
        );
        i = i + 1;
    }
    if n == 0 || res.accepted_steps[n - 1] != res.n_steps - 1 {
        let last = total - 1;
        rows.push(CsvRow { step: res.n_steps, x: copy_point(&res.x_vals[last]), e: res.e_vals[last] });
    }
    rows
}

} // verus!
