//! How a pass sets rows apart, and children within a row.

use vstd::prelude::*;
use crate::geometry::overlaps;
use crate::laws::columns::lemma_column_width_bounds;
use crate::pass::Pass;

verus! {

/// The height of a row is never negative.
proof fn lemma_row_height_not_negative(pass: Pass, i: int)
    ensures
        pass.cursor(i).row_height >= 0,
    decreases i,
{
    if i > 0 {
        lemma_row_height_not_negative(pass, i - 1);
    }
}

/// Whether the layout has no negative gap, and no child that it lays out has
/// a negative size.
pub open spec fn well_sized(pass: Pass) -> bool {
    &&& pass.data.spacing_horizontal >= 0
    &&& pass.data.spacing_vertical >= 0
    &&& forall|k: int|
        0 <= k < pass.children.len() && #[trigger] pass.managed(k) ==> pass.children[k].sized()
}

/// Where the cursor stands behind the first `j` children, seen from a child
/// `i` among them that was laid out: in the row of `i` to the right of `i`,
/// or in a later row below `i`.
proof fn lemma_cursor_behind(pass: Pass, i: int, j: int)
    requires
        0 <= i < j <= pass.children.len(),
        pass.managed(i),
        well_sized(pass),
    ensures
        pass.cursor(j).row >= pass.row(i),
        pass.cursor(j).row == pass.row(i) ==> pass.cursor(j).cy == pass.seat(i).cy
            && pass.cursor(j).row_height >= pass.height(i),
        pass.cursor(j).row == pass.row(i) && pass.width(i) >= 0 ==> pass.cursor(j).cx
            >= pass.seat(i).cx + pass.width(i),
        pass.cursor(j).row > pass.row(i) ==> pass.cursor(j).cy >= pass.seat(i).cy + pass.height(i),
    decreases j - i,
{
    if j > i + 1 {
        lemma_cursor_behind(pass, i, j - 1);
        lemma_row_height_not_negative(pass, j - 1);
    }
}

/// Two children that a pass lays out, the first before the second in the
/// container's order: the second is in the same row to the right of the
/// first, or in a later row below it.
proof fn lemma_later_child_apart(pass: Pass, i: int, j: int)
    requires
        0 <= i < j < pass.children.len(),
        pass.managed(i),
        pass.managed(j),
        well_sized(pass),
    ensures
        pass.row(i) <= pass.row(j),
        pass.row(i) == pass.row(j) ==> pass.top(i) == pass.top(j) && !overlaps(
            pass.left(i),
            pass.width(i),
            pass.left(j),
            pass.width(j),
        ),
        pass.row(i) != pass.row(j) ==> !overlaps(
            pass.top(i),
            pass.height(i),
            pass.top(j),
            pass.height(j),
        ),
{
    lemma_cursor_behind(pass, i, j);
    lemma_row_height_not_negative(pass, j);
}

/// No two children that a pass lays out overlap: in one row they stand at one
/// height and their horizontal ranges are apart, and in different rows their
/// vertical ranges are apart. This holds where no gap and no size is
/// negative.
pub proof fn lemma_children_apart(pass: Pass, i: int, j: int)
    requires
        0 <= i < pass.children.len(),
        0 <= j < pass.children.len(),
        i != j,
        pass.managed(i),
        pass.managed(j),
        well_sized(pass),
    ensures
        i < j ==> pass.row(i) <= pass.row(j),
        pass.row(i) == pass.row(j) ==> pass.top(i) == pass.top(j) && !overlaps(
            pass.left(i),
            pass.width(i),
            pass.left(j),
            pass.width(j),
        ),
        pass.row(i) != pass.row(j) ==> !overlaps(
            pass.top(i),
            pass.height(i),
            pass.top(j),
            pass.height(j),
        ),
{
    if i < j {
        lemma_later_child_apart(pass, i, j);
    } else {
        lemma_later_child_apart(pass, j, i);
    }
}

/// Rows are never numbered downwards, and lie at or below the content
/// origin where the gap between rows is not negative.
proof fn lemma_rows_go_down(pass: Pass, i: int, j: int)
    requires
        0 <= i <= j,
    ensures
        pass.cursor(i).row <= pass.cursor(j).row,
        pass.data.spacing_vertical >= 0 ==> 0 <= pass.cursor(i).cy <= pass.cursor(j).cy,
    decreases j,
{
    lemma_row_height_not_negative(pass, j - 1);
    if i < j {
        lemma_rows_go_down(pass, i, j - 1);
    } else if 0 < j {
        lemma_rows_go_down(pass, 0, j - 1);
    }
}

/// Every child that a pass lays out lies between the top of the content and
/// the bottom that the pass reports: the total height covers all rows. This
/// holds where no gap and no size is negative.
pub proof fn lemma_children_within_height(pass: Pass, i: int)
    requires
        0 <= i < pass.children.len(),
        pass.managed(i),
        well_sized(pass),
    ensures
        pass.content_y() <= pass.top(i),
        pass.top(i) + pass.height(i) + pass.data.padding_bottom <= pass.y + pass.total_height(),
{
    let n = pass.children.len() as int;
    lemma_cursor_behind(pass, i, n);
    lemma_row_height_not_negative(pass, n);
    lemma_row_height_not_negative(pass, i);
    lemma_rows_go_down(pass, i, i);
}

/// Whether every child that the pass lays out has a height above zero.
pub open spec fn all_tall(pass: Pass) -> bool {
    forall|k: int|
        0 <= k < pass.children.len() && #[trigger] pass.managed(k) ==> pass.children[k].h > 0
}

/// Among children of heights above zero, a row without height is a row
/// without children.
proof fn lemma_flat_row_is_empty(pass: Pass, j: int)
    requires
        0 <= j <= pass.children.len(),
        all_tall(pass),
    ensures
        pass.cursor(j).row_height == 0 ==> pass.cursor(j).cx == 0,
    decreases j,
{
    if j > 0 {
        lemma_flat_row_is_empty(pass, j - 1);
    }
}

/// Among children of heights above zero, a child passes the content width
/// only where it is the first of its row: every other child ends within the
/// content.
pub proof fn lemma_wide_child_starts_row(pass: Pass, i: int)
    requires
        0 <= i < pass.children.len(),
        pass.managed(i),
        all_tall(pass),
    ensures
        pass.left(i) == pass.content_x() || pass.left(i) + pass.width(i) <= pass.content_x()
            + pass.room(),
{
    lemma_flat_row_is_empty(pass, i);
}

/// With column splitting, with a column width and a gap that are not
/// negative, the cursor never stands left of the content.
proof fn lemma_cursor_not_left_of_origin(pass: Pass, j: int)
    requires
        0 <= j <= pass.children.len(),
        pass.data.splitting(),
        pass.data.spacing_horizontal >= 0,
        pass.data.column_width(pass.w as int) >= 0,
    ensures
        pass.cursor(j).cx >= 0,
    decreases j,
{
    if j > 0 {
        lemma_cursor_not_left_of_origin(pass, j - 1);
    }
}

/// With column splitting, among children of heights above zero, every child
/// lies within the content width, where the content is not narrower than
/// nothing and the gap is not negative.
pub proof fn lemma_children_within_room(pass: Pass, i: int)
    requires
        0 <= i < pass.children.len(),
        pass.managed(i),
        all_tall(pass),
        pass.data.splitting(),
        pass.data.spacing_horizontal >= 0,
        pass.room() >= 0,
    ensures
        pass.content_x() <= pass.left(i),
        pass.left(i) + pass.width(i) <= pass.content_x() + pass.room(),
{
    lemma_wide_child_starts_row(pass, i);
    lemma_column_width_bounds(pass.data, pass.w as int);
    lemma_cursor_not_left_of_origin(pass, i);
}

/// Whether the layout does not split its content, every child that the pass
/// lays out is as wide as the content and has a height above zero, and one
/// such child with the gap behind it takes more room than nothing.
pub open spec fn all_full_width(pass: Pass) -> bool {
    &&& !pass.data.splitting()
    &&& all_tall(pass)
    &&& pass.room() + pass.data.spacing_horizontal > 0
    &&& forall|k: int|
        0 <= k < pass.children.len() && #[trigger] pass.managed(k) ==> pass.children[k].w
            == pass.room()
}

/// Among full-width children the cursor stands at the start of an empty row
/// or behind the one child of a row.
proof fn lemma_full_width_cursor(pass: Pass, j: int)
    requires
        0 <= j <= pass.children.len(),
        all_full_width(pass),
    ensures
        pass.cursor(j).row_height == 0 ==> pass.cursor(j).cx == 0,
        pass.cursor(j).row_height != 0 ==> pass.cursor(j).cx == pass.room()
            + pass.data.spacing_horizontal,
        pass.cursor(j).row_height >= 0,
    decreases j,
{
    if j > 0 {
        lemma_full_width_cursor(pass, j - 1);
    }
}

/// Behind a full-width child the row is taken until another child is laid
/// out, which then starts the next row.
proof fn lemma_full_width_row_taken(pass: Pass, i: int, j: int)
    requires
        0 <= i < j <= pass.children.len(),
        pass.managed(i),
        all_full_width(pass),
    ensures
        pass.cursor(j).row >= pass.row(i),
        pass.cursor(j).row_height != 0,
    decreases j,
{
    if j > i + 1 {
        lemma_full_width_row_taken(pass, i, j - 1);
    }
}

/// Without column splitting, children that are as wide as the content stack
/// in a single column, however many they are: each stands at the left edge
/// of the content, and no two share a row.
pub proof fn lemma_full_width_children_stack(pass: Pass, i: int, j: int)
    requires
        0 <= i < j < pass.children.len(),
        pass.managed(i),
        pass.managed(j),
        all_full_width(pass),
    ensures
        pass.left(i) == pass.content_x(),
        pass.left(j) == pass.content_x(),
        pass.row(i) < pass.row(j),
{
    lemma_full_width_cursor(pass, i);
    lemma_full_width_cursor(pass, j);
    lemma_full_width_row_taken(pass, i, j);
}

} // verus!
