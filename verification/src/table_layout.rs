//! How a row of table columns is split over several printed tables
//! when the user limits the columns per row.

use crate::non_zero::AtLeastOne;
use vstd::prelude::*;

verus! {

/// The column counts of the printed tables: without a limit, or with a
/// limit at least as wide as the row, everything in one table; else
/// full tables of `per_row` columns and, if columns remain, one last
/// narrower table.
pub open spec fn spec_column_draw_steps(colum_num: u32, opt: Option<AtLeastOne>) -> Seq<u32> {
    match opt {
        None => seq![colum_num],
        Some(per_row) => {
            if per_row.0 >= colum_num {
                seq![colum_num]
            } else {
                let full = Seq::<u32>::new(
                    (colum_num / per_row.0) as nat,
                    |i: int| per_row.0,
                );
                if colum_num % per_row.0 == 0 {
                    full
                } else {
                    full.push(colum_num % per_row.0)
                }
            }
        },
    }
}

/// Splits `colum_num` table columns into row-sized chunks: each entry
/// of the result says how many columns the next printed table holds.
#[verifier::loop_isolation(false)]
pub fn column_draw_steps(colum_num: u32, opt_column_num_per_row: Option<AtLeastOne>) -> (r: Vec<
    u32,
>)
    requires
        opt_column_num_per_row matches Some(p) ==> p.wf(),
    ensures
        r@ == spec_column_draw_steps(colum_num, opt_column_num_per_row),
{
    match opt_column_num_per_row {
        None => {
            let mut r: Vec<u32> = Vec::new();
            r.push(colum_num);
            proof {
                assert(r@ =~= spec_column_draw_steps(colum_num, opt_column_num_per_row));
            }
            r
        },
        Some(per_row) => {
            let num_per_row = per_row.value();
            if num_per_row >= colum_num {
                let mut r: Vec<u32> = Vec::new();
                r.push(colum_num);
                proof {
                    assert(r@ =~= spec_column_draw_steps(colum_num, opt_column_num_per_row));
                }
                r
            } else {
                let div_column: u32 = colum_num / num_per_row;
                let module_column: u32 = colum_num % num_per_row;
                let mut r: Vec<u32> = Vec::new();
                let mut i: u32 = 0;
                while i < div_column
                    invariant
                        i <= div_column,
                        r@ =~= Seq::<u32>::new(i as nat, |j: int| num_per_row),
                    decreases div_column - i,
                {
                    r.push(num_per_row);
                    i += 1;
                    proof {
                        assert(r@ =~= Seq::<u32>::new(i as nat, |j: int| num_per_row));
                    }
                }
                if module_column != 0 {
                    r.push(module_column);
                }
                proof {
                    assert(r@ =~= spec_column_draw_steps(colum_num, opt_column_num_per_row));
                }
                r
            }
        },
    }
}

} // verus!
