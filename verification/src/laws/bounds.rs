//! A pass that has room in the pixel range can be written down.

use vstd::prelude::*;
use crate::laws::columns::{lemma_column_width_bounds, lemma_columns_fill_content_count};
use crate::laws::rows::well_sized;
use crate::pass::Pass;

verus! {

/// The widths of the children among the first `i` that are laid out, each
/// with the gap behind it, added up: what a single row of them would take.
pub open spec fn run_width(pass: Pass, i: int) -> int
    decreases i,
{
    if i <= 0 {
        0
    } else if pass.managed(i - 1) {
        run_width(pass, i - 1) + pass.width(i - 1) + pass.data.spacing_horizontal
    } else {
        run_width(pass, i - 1)
    }
}

/// The heights of the children among the first `i` that are laid out, each
/// with the gap below it, added up: what a single column of them would take.
pub open spec fn run_height(pass: Pass, i: int) -> int
    decreases i,
{
    if i <= 0 {
        0
    } else if pass.managed(i - 1) {
        run_height(pass, i - 1) + pass.height(i - 1) + pass.data.spacing_vertical
    } else {
        run_height(pass, i - 1)
    }
}

/// Whether no width that the pass gives is negative.
pub open spec fn widths_not_negative(pass: Pass) -> bool {
    pass.data.splitting() ==> pass.data.column_width(pass.w as int) >= 0
}

/// The cursor never leaves the rectangle that a single row and a single
/// column of the children would span.
proof fn lemma_cursor_within_runs(pass: Pass, j: int)
    requires
        0 <= j <= pass.children.len(),
        well_sized(pass),
        widths_not_negative(pass),
    ensures
        0 <= pass.cursor(j).cx <= run_width(pass, j),
        0 <= pass.cursor(j).cy,
        0 <= pass.cursor(j).row_height,
        pass.cursor(j).cy + pass.cursor(j).row_height <= run_height(pass, j),
    decreases j,
{
    if j > 0 {
        lemma_cursor_within_runs(pass, j - 1);
        if pass.managed(j - 1) {
            assert(pass.children[j - 1].sized());
        }
    }
}

/// What a row or a column of the first children takes, a row or a column of
/// more children takes too.
proof fn lemma_runs_grow(pass: Pass, i: int, j: int)
    requires
        0 <= i <= j <= pass.children.len(),
        well_sized(pass),
        widths_not_negative(pass),
    ensures
        run_width(pass, i) <= run_width(pass, j),
        run_height(pass, i) <= run_height(pass, j),
    decreases j - i,
{
    if i < j {
        lemma_runs_grow(pass, i, j - 1);
        if pass.managed(j - 1) {
            assert(pass.children[j - 1].sized());
        }
    }
}

/// A pass can be written down in pixel values where the pixel range has room
/// for its children side by side in one row and one below the other in one
/// column: however the pass wraps them, it takes no more. This holds where no
/// value of the configuration and no size of a child laid out is negative,
/// and the padding leaves content of some width.
pub proof fn lemma_roomy_pass_fits(pass: Pass)
    requires
        pass.data.non_negative(),
        well_sized(pass),
        pass.room() >= 0,
        pass.content_x() + run_width(pass, pass.children.len() as int) <= i32::MAX,
        pass.content_y() + run_height(pass, pass.children.len() as int) <= i32::MAX,
        run_height(pass, pass.children.len() as int) + pass.data.padding_top
            + pass.data.padding_bottom <= i32::MAX,
    ensures
        pass.fits(),
{
    let n = pass.children.len() as int;
    if pass.data.splitting() {
        lemma_column_width_bounds(pass.data, pass.w as int);
        lemma_columns_fill_content_count(pass.data, pass.w as int);
        let count = pass.data.column_count(pass.w as int);
        let pitch = pass.data.min_column_width + pass.data.spacing_horizontal;
        if count > 1 {
            assert(count - 1 <= (count - 1) * pitch) by (nonlinear_arith)
                requires
                    count > 1,
                    pitch >= 1,
            ;
        }
    }
    lemma_cursor_within_runs(pass, n);
    assert forall|i: int| 0 <= i < n && #[trigger] pass.managed(i) implies 0 <= pass.seat(i).cx
        <= run_width(pass, n) && 0 <= pass.seat(i).cy <= run_height(pass, n) by {
        lemma_cursor_within_runs(pass, i);
        lemma_runs_grow(pass, i + 1, n);
        assert(pass.children[i].sized());
    }
}

} // verus!
