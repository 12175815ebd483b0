//! The grid that a pass fills where it splits its content into columns.

use vstd::prelude::*;
use vstd::arithmetic::div_mod::{
    lemma_fundamental_div_mod, lemma_fundamental_div_mod_converse, lemma_mod_bound,
};
use crate::laws::columns::{lemma_columns_fill_content, lemma_columns_within_content};
use crate::laws::rows::all_tall;
use crate::pass::{Cursor, Pass};

verus! {

/// Whether the pass fills a grid: the content is split into columns and has
/// room for a column of the minimum width, the gap between columns is not
/// negative, and every child that is laid out has a height above zero.
pub open spec fn fills_grid(pass: Pass) -> bool {
    &&& pass.data.splitting()
    &&& pass.data.spacing_horizontal >= 0
    &&& pass.room() >= pass.data.min_column_width
    &&& all_tall(pass)
}

/// The slot behind slot `a` in a grid of `n` columns: the next column of the
/// row, or the first column of the next row behind the last one.
proof fn lemma_next_slot(a: int, n: int)
    requires
        a >= 0,
        n > 0,
    ensures
        0 <= a % n < n,
        a % n < n - 1 ==> (a + 1) / n == a / n && (a + 1) % n == a % n + 1,
        a % n == n - 1 ==> (a + 1) / n == a / n + 1 && (a + 1) % n == 0,
{
    lemma_fundamental_div_mod(a, n);
    lemma_mod_bound(a, n);
    let q = a / n;
    let r = a % n;
    if r < n - 1 {
        assert(a + 1 == q * n + (r + 1)) by (nonlinear_arith)
            requires
                a == n * q + r,
        ;
        lemma_fundamental_div_mod_converse(a + 1, n, q, r + 1);
    } else {
        assert(a + 1 == (q + 1) * n + 0) by (nonlinear_arith)
            requires
                a == n * q + r,
                r == n - 1,
        ;
        lemma_fundamental_div_mod_converse(a + 1, n, q + 1, 0);
    }
}

/// In a pass that fills a grid, a row takes as many children as there are
/// columns and not one more.
proof fn lemma_row_takes_columns(pass: Pass, m: int)
    requires
        fills_grid(pass),
        1 <= m <= pass.data.column_count(pass.w as int),
    ensures
        ({
            let n = pass.data.column_count(pass.w as int);
            let step = pass.data.column_width(pass.w as int) + pass.data.spacing_horizontal;
            &&& step > 0
            &&& m < n ==> m * step + pass.data.column_width(pass.w as int) <= pass.room()
            &&& m == n ==> m * step + pass.data.column_width(pass.w as int) > pass.room()
        }),
{
    let n = pass.data.column_count(pass.w as int);
    let width = pass.data.column_width(pass.w as int);
    let gap = pass.data.spacing_horizontal as int;
    let min = pass.data.min_column_width as int;
    let room = pass.room();
    lemma_columns_within_content(pass.data, pass.w as int);
    lemma_columns_fill_content(pass.data, pass.w as int);
    if m < n {
        assert(m * (width + gap) + width <= n * width + (n - 1) * gap) by (nonlinear_arith)
            requires
                1 <= m < n,
                width >= 0,
                gap >= 0,
        ;
    } else {
        assert(n * (width + gap) + width >= (n + 1) * min + n * gap) by (nonlinear_arith)
            requires
                n >= 1,
                width >= min,
        ;
    }
}

/// In a pass that fills a grid, the cursor behind the first `j` children
/// stands behind the slot of the last child laid out.
proof fn lemma_grid_cursor(pass: Pass, j: int)
    requires
        0 <= j <= pass.children.len(),
        fills_grid(pass),
    ensures
        pass.rank(j) >= 0,
        pass.rank(j) == 0 ==> pass.cursor(j) == Cursor::origin(),
        pass.rank(j) > 0 ==> ({
            let n = pass.data.column_count(pass.w as int);
            let step = pass.data.column_width(pass.w as int) + pass.data.spacing_horizontal;
            let last = pass.rank(j) - 1;
            &&& pass.cursor(j).row == last / n
            &&& pass.cursor(j).cx == (last % n + 1) * step
            &&& pass.cursor(j).row_height > 0
        }),
    decreases j,
{
    if j > 0 {
        lemma_grid_cursor(pass, j - 1);
        if pass.managed(j - 1) {
            lemma_grid_seat(pass, j - 1);
            let n = pass.data.column_count(pass.w as int);
            let step = pass.data.column_width(pass.w as int) + pass.data.spacing_horizontal;
            let last = pass.rank(j - 1);
            assert(pass.children[j - 1].h > 0);
            lemma_mod_bound(last, n);
            assert(pass.cursor(j).cx == (last % n) * step + step);
            assert((last % n) * step + step == (last % n + 1) * step) by (nonlinear_arith);
        }
    }
}

/// In a pass that fills a grid, a child that is laid out is seated in the
/// slot of its rank, given where the cursor stands before it.
proof fn lemma_grid_seat(pass: Pass, i: int)
    requires
        0 <= i < pass.children.len(),
        pass.managed(i),
        fills_grid(pass),
        pass.rank(i) >= 0,
        pass.rank(i) == 0 ==> pass.cursor(i) == Cursor::origin(),
        pass.rank(i) > 0 ==> ({
            let n = pass.data.column_count(pass.w as int);
            let step = pass.data.column_width(pass.w as int) + pass.data.spacing_horizontal;
            let last = pass.rank(i) - 1;
            &&& pass.cursor(i).row == last / n
            &&& pass.cursor(i).cx == (last % n + 1) * step
            &&& pass.cursor(i).row_height > 0
        }),
    ensures
        pass.seat(i).row == pass.rank(i) / pass.data.column_count(pass.w as int),
        pass.seat(i).cx == (pass.rank(i) % pass.data.column_count(pass.w as int)) * (
        pass.data.column_width(pass.w as int) + pass.data.spacing_horizontal),
{
    let n = pass.data.column_count(pass.w as int);
    let step = pass.data.column_width(pass.w as int) + pass.data.spacing_horizontal;
    let r = pass.rank(i);
    if r == 0 {
        assert(0int / n == 0 && 0int % n == 0) by {
            lemma_fundamental_div_mod_converse(0, n, 0, 0);
        }
        assert(0 * step == 0) by (nonlinear_arith);
    } else {
        let last = r - 1;
        lemma_next_slot(last, n);
        lemma_row_takes_columns(pass, last % n + 1);
        if last % n == n - 1 {
            assert(0 * step == 0) by (nonlinear_arith);
        }
    }
}

/// With column splitting, the children that a pass lays out form a grid:
/// counted in their order, the first as many as there are columns fill the
/// first row from the left, the next as many the second row, and so on. This
/// holds where the content has room for a column of the minimum width, the
/// gap between columns is not negative, and every child laid out has a
/// height above zero.
pub proof fn lemma_children_form_grid(pass: Pass, i: int)
    requires
        0 <= i < pass.children.len(),
        pass.managed(i),
        fills_grid(pass),
    ensures
        pass.row(i) == pass.rank(i) / pass.data.column_count(pass.w as int),
        pass.left(i) == pass.content_x() + (pass.rank(i) % pass.data.column_count(pass.w as int))
            * (pass.data.column_width(pass.w as int) + pass.data.spacing_horizontal),
{
    lemma_grid_cursor(pass, i);
    lemma_grid_seat(pass, i);
}

} // verus!
