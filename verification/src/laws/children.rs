//! What a pass changes of a child, and what it keeps.

use vstd::prelude::*;
use crate::pass::Pass;

verus! {

/// Without column splitting a pass keeps the width of every child.
pub proof fn lemma_unsplit_keeps_width(pass: Pass, i: int)
    requires
        0 <= i < pass.children.len(),
        !pass.data.splitting(),
    ensures
        pass.laid_out()[i].w == pass.children[i].w,
{
}

/// With a minimum column width of zero, a child that is as wide as the
/// content before a pass is as wide as the content after it.
pub proof fn lemma_full_width_stays(pass: Pass, i: int)
    requires
        0 <= i < pass.children.len(),
        pass.managed(i),
        pass.data.min_column_width == 0,
        pass.children[i].w == pass.room(),
    ensures
        pass.laid_out()[i].w == pass.room(),
{
}

/// With column splitting, every child that a pass lays out gets the column
/// width.
pub proof fn lemma_split_gives_column_width(pass: Pass, i: int)
    requires
        0 <= i < pass.children.len(),
        pass.managed(i),
        pass.data.splitting(),
        pass.fits(),
    ensures
        pass.laid_out()[i].w == pass.data.column_width(pass.w as int),
{
}

/// A pass keeps the children in their order and changes neither the
/// identifier nor the height of any.
pub proof fn lemma_pass_keeps_identity_and_height(pass: Pass, i: int)
    requires
        0 <= i < pass.children.len(),
    ensures
        pass.laid_out().len() == pass.children.len(),
        pass.laid_out()[i].id == pass.children[i].id,
        pass.laid_out()[i].h == pass.children[i].h,
{
}

/// A pass hands back each child that it is told to leave alone as it came,
/// and such a child moves no other: the cursor passes it by.
pub proof fn lemma_excluded_untouched(pass: Pass, i: int)
    requires
        0 <= i < pass.children.len(),
        pass.ignore.contains(pass.children[i].id),
    ensures
        pass.laid_out()[i] == pass.children[i],
        pass.cursor(i + 1) == pass.cursor(i),
{
}

} // verus!
