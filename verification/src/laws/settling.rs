//! A pass over the outcome of a pass changes nothing.

use vstd::prelude::*;
use crate::pass::Pass;
use crate::table::FlowTableView;

verus! {

/// Whether two passes differ at most in what no pass reads: the positions of
/// the children, the sizes of the children that are left alone, and, with
/// column splitting, the widths of all.
pub open spec fn alike(p: Pass, q: Pass) -> bool {
    &&& p.data == q.data
    &&& p.x == q.x
    &&& p.y == q.y
    &&& p.w == q.w
    &&& p.ignore == q.ignore
    &&& p.children.len() == q.children.len()
    &&& forall|k: int|
        0 <= k < p.children.len() ==> (#[trigger] p.children[k]).id == q.children[k].id
    &&& forall|k: int|
        0 <= k < p.children.len() && #[trigger] p.managed(k) ==> p.children[k].h == q.children[k].h
            && (p.data.splitting() || p.children[k].w == q.children[k].w)
}

/// Two passes that are alike move their cursors alike.
proof fn lemma_alike_cursor(p: Pass, q: Pass, i: int)
    requires
        alike(p, q),
        0 <= i <= p.children.len(),
    ensures
        p.cursor(i) == q.cursor(i),
    decreases i,
{
    if i > 0 {
        lemma_alike_cursor(p, q, i - 1);
    }
}

/// A pass reads of a child its identifier, its height and, without column
/// splitting, its width, and of a child that it leaves alone the identifier
/// only: two passes that agree in these, in the configuration and in the
/// bounds give every child the same place and size and the sizing proxy the
/// same rectangle.
pub proof fn lemma_pass_reads_sizes_only(p: Pass, q: Pass)
    requires
        alike(p, q),
    ensures
        p.fits() == q.fits(),
        p.proxy() == q.proxy(),
        forall|i: int|
            0 <= i < p.children.len() && #[trigger] p.managed(i) ==> q.managed(i) && p.laid(i)
                == q.laid(i),
{
    assert forall|i: int| 0 <= i < p.children.len() implies q.managed(i) == p.managed(i) && (
    p.managed(i) ==> p.left(i) == q.left(i) && p.top(i) == q.top(i) && p.laid(i) == q.laid(i)) by {
        lemma_alike_cursor(p, q, i);
    }
    lemma_alike_cursor(p, q, p.children.len() as int);
}

/// The pass over the children as a first pass left them.
pub open spec fn second(pass: Pass) -> Pass {
    Pass { children: pass.laid_out(), ..pass }
}

/// A pass over the outcome of a pass, with the same configuration and the
/// same bounds, changes nothing: every child keeps its position and size,
/// and the sizing proxy keeps its rectangle.
pub proof fn lemma_pass_settles(pass: Pass)
    ensures
        second(pass).fits() == pass.fits(),
        second(pass).laid_out() == pass.laid_out(),
        second(pass).proxy() == pass.proxy(),
{
    let again = second(pass);
    lemma_pass_reads_sizes_only(pass, again);
    assert(again.laid_out() =~= pass.laid_out());
}

/// The width that a pass reports is the width of the container.
pub proof fn lemma_total_width_is_width(pass: Pass)
    ensures
        pass.total_width() == pass.w,
        pass.proxy().w == pass.w,
{
}

/// The pass of a table lays out every child but the sizing proxy. The proxy
/// gets the rectangle of what was laid out, which starts where the table
/// starts and is as wide as the table, and the table gets the proxy's size.
pub proof fn lemma_proxy_takes_total(table: FlowTableView, x: i32, y: i32, w: i32)
    requires
        table.valid(),
        table.pass(x, y, w).fits(),
    ensures
        !table.pass(x, y, w).managed(0),
        forall|i: int| 1 <= i < table.children.len() ==> #[trigger] table.pass(x, y, w).managed(i),
        forall|i: int|
            1 <= i < table.children.len() ==> #[trigger] table.resized(x, y, w).children[i]
                == table.pass(x, y, w).laid(i),
        table.resized(x, y, w).proxy().id == table.proxy().id,
        table.resized(x, y, w).proxy().x == x,
        table.resized(x, y, w).proxy().y == y,
        table.resized(x, y, w).proxy().w == w,
        table.resized(x, y, w).proxy().h == table.pass(x, y, w).total_height(),
        table.resized(x, y, w).w == w,
        table.resized(x, y, w).h == table.pass(x, y, w).total_height(),
{
    let pass = table.pass(x, y, w);
    assert(table.ignore[0] == 0u64);
    assert forall|i: int| 1 <= i < table.children.len() implies #[trigger] pass.managed(i) by {
        assert(table.children[i].id == i);
    }
}

/// A table that was resized has the size of its sizing proxy, which is the
/// size of what was laid out, and resizing it again to the same place and
/// width, with whatever height, changes nothing: no child moves, the proxy
/// keeps its rectangle and the table its size.
pub proof fn lemma_resize_settles(table: FlowTableView, x: i32, y: i32, w: i32)
    requires
        table.valid(),
    ensures
        table.resized(x, y, w).valid(),
        table.resized(x, y, w).w == table.resized(x, y, w).proxy().w,
        table.resized(x, y, w).h == table.resized(x, y, w).proxy().h,
        table.resized(x, y, w).w == w,
        table.resized(x, y, w).pass(x, y, w).fits() == table.pass(x, y, w).fits(),
        table.resized(x, y, w).resized(x, y, w) == table.resized(x, y, w),
{
    let p = table.pass(x, y, w);
    let once = table.resized(x, y, w);
    let q = once.pass(x, y, w);
    assert(table.ignore.to_set().contains(0u64)) by {
        assert(table.ignore[0] == 0u64);
    }
    lemma_pass_reads_sizes_only(p, q);
    let twice = once.resized(x, y, w);
    assert(twice.children =~= once.children);
}

} // verus!
