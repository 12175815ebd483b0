//! What holds of the column geometry.

use vstd::prelude::*;
use vstd::arithmetic::div_mod::{
    lemma_div_is_ordered, lemma_div_multiples_vanish, lemma_div_nonincreasing,
    lemma_div_pos_is_pos, lemma_fundamental_div_mod,
};
use crate::config::FlowTableData;

verus! {

/// With no negative value in the configuration, the content is split into
/// columns exactly where the minimum column width is above zero: width and
/// gap never cancel.
pub proof fn lemma_non_negative_splits_by_width(data: FlowTableData)
    requires
        data.non_negative(),
    ensures
        data.splitting() == (data.min_column_width > 0),
{
}

/// With a minimum column width above zero there is at least one column, and
/// the columns with the gaps between them are never wider than the content.
pub proof fn lemma_columns_within_content(data: FlowTableData, w: int)
    requires
        data.min_column_width > 0,
    ensures
        data.column_count(w) >= 1,
        data.column_count(w) * data.column_width(w) + (data.column_count(w) - 1)
            * data.spacing_horizontal <= data.content_width(w),
{
    let n = data.column_count(w);
    let shared = data.content_width(w) - (n - 1) * data.spacing_horizontal;
    lemma_fundamental_div_mod(shared, n);
}

/// Where a column of the minimum width fits into the content and the gap is
/// not negative, no column is narrower than the minimum width, and there are
/// as many columns as fit: one more column of the minimum width would pass
/// the content width.
pub proof fn lemma_columns_fill_content(data: FlowTableData, w: int)
    requires
        data.min_column_width > 0,
        data.spacing_horizontal >= 0,
        data.content_width(w) >= data.min_column_width,
    ensures
        data.column_width(w) >= data.min_column_width,
        (data.column_count(w) + 1) * data.min_column_width + data.column_count(w)
            * data.spacing_horizontal > data.content_width(w),
{
    let min = data.min_column_width as int;
    let gap = data.spacing_horizontal as int;
    let content = data.content_width(w);
    let pitch = min + gap;
    let more = (content - min) / pitch;
    lemma_fundamental_div_mod(content - min, pitch);
    let n = data.column_count(w);
    let shared = content - (n - 1) * gap;
    assert(shared >= n * min && (n + 1) * min + n * gap > content) by (nonlinear_arith)
        requires
            n == 1 + more,
            shared == content - (n - 1) * gap,
            pitch == min + gap,
            content - min == pitch * more + (content - min) % pitch,
            0 <= (content - min) % pitch < pitch,
    ;
    lemma_div_is_ordered(n * min, shared, n);
    lemma_div_multiples_vanish(min, n);
    assert(n * min == min * n) by (nonlinear_arith);
}

/// The columns beyond the first, each with its gap, fit beside a column of
/// the minimum width.
pub proof fn lemma_columns_fill_content_count(data: FlowTableData, w: int)
    requires
        data.splitting(),
        data.spacing_horizontal >= 0,
    ensures
        data.column_count(w) > 1 ==> (data.column_count(w) - 1) * (data.min_column_width
            + data.spacing_horizontal) <= data.content_width(w) - data.min_column_width,
{
    let pitch = data.min_column_width + data.spacing_horizontal;
    let room = data.content_width(w) - data.min_column_width;
    lemma_fundamental_div_mod(room, pitch);
    assert(pitch * (room / pitch) == (room / pitch) * pitch) by (nonlinear_arith);
}

/// With a gap that is not negative, a column is never wider than content
/// that is not narrower than nothing, and never narrower than nothing.
pub proof fn lemma_column_width_bounds(data: FlowTableData, w: int)
    requires
        data.splitting(),
        data.spacing_horizontal >= 0,
        data.content_width(w) >= 0,
    ensures
        0 <= data.column_width(w) <= data.content_width(w),
{
    let n = data.column_count(w);
    let gap = data.spacing_horizontal as int;
    let content = data.content_width(w);
    if n == 1 {
        assert(data.column_width(w) == content);
    } else {
        lemma_columns_fill_content_count(data, w);
        let shared = content - (n - 1) * gap;
        assert(0 <= shared <= content) by (nonlinear_arith)
            requires
                n >= 1,
                gap >= 0,
                shared == content - (n - 1) * gap,
                (n - 1) * (data.min_column_width + gap) <= content - data.min_column_width,
                data.min_column_width > 0,
        ;
        lemma_div_pos_is_pos(shared, n);
        lemma_div_is_ordered(shared, content, n);
        lemma_div_nonincreasing(content, n);
    }
}

} // verus!
