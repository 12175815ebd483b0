//! One layout pass: a greedy flow, left to right and top to bottom, over the
//! children of a container in their order.

use vstd::prelude::*;
use crate::config::FlowTableData;
use crate::geometry::{is_pixel, Child, Rect};

verus! {

/// Where the flow stands between two children, relative to the content origin.
pub struct Cursor {
    /// The horizontal offset at which the next child of the row would start.
    pub cx: int,
    /// The vertical offset of the row.
    pub cy: int,
    /// The height of the tallest child seated in the row so far.
    pub row_height: int,
    /// The number of rows begun before this one.
    pub row: int,
}

impl Cursor {
    /// The cursor before any child is seated.
    pub open spec fn origin() -> Cursor {
        Cursor { cx: 0, cy: 0, row_height: 0, row: 0 }
    }

    /// Whether a child of the given width goes to a new row: the row holds a
    /// sized child already, and the child would pass the room there is.
    pub open spec fn wraps(self, width: int, room: int) -> bool {
        self.row_height != 0 && self.cx + width > room
    }

    /// The cursor at which a child of the given width is seated: the start of
    /// the next row where it wraps, the cursor itself where it does not.
    pub open spec fn seated(self, width: int, room: int, gap: int) -> Cursor {
        if self.wraps(width, room) {
            Cursor { cx: 0, cy: self.cy + self.row_height + gap, row_height: 0, row: self.row + 1 }
        } else {
            self
        }
    }

    /// The cursor behind a child of the given size that is seated at this one.
    pub open spec fn past(self, width: int, height: int, gap: int) -> Cursor {
        Cursor {
            cx: self.cx + width + gap,
            cy: self.cy,
            row_height: if height > self.row_height {
                height
            } else {
                self.row_height
            },
            row: self.row,
        }
    }
}

/// What one layout pass works on: the configuration, the container's position
/// and width, its children in their order, and the identifiers of the
/// children that the layout leaves alone.
pub struct Pass {
    pub data: FlowTableData,
    pub x: i32,
    pub y: i32,
    pub w: i32,
    pub children: Seq<Child>,
    pub ignore: Set<u64>,
}

impl Pass {
    /// The left edge of the content.
    pub open spec fn content_x(self) -> int {
        self.x + self.data.padding_left
    }

    /// The top edge of the content.
    pub open spec fn content_y(self) -> int {
        self.y + self.data.padding_top
    }

    /// The width that a row may take.
    pub open spec fn room(self) -> int {
        self.data.content_width(self.w as int)
    }

    /// Whether child `i` is laid out.
    pub open spec fn managed(self, i: int) -> bool {
        !self.ignore.contains(self.children[i].id)
    }

    /// The width that child `i` has after the pass: the column width where
    /// the layout splits its content, the child's own width where it does not.
    pub open spec fn width(self, i: int) -> int {
        if self.data.splitting() {
            self.data.column_width(self.w as int)
        } else {
            self.children[i].w as int
        }
    }

    /// The height of child `i`, which no pass changes.
    pub open spec fn height(self, i: int) -> int {
        self.children[i].h as int
    }

    /// The number of children among the first `i` that are laid out.
    pub open spec fn rank(self, i: int) -> int
        decreases i,
    {
        if i <= 0 {
            0
        } else if self.managed(i - 1) {
            self.rank(i - 1) + 1
        } else {
            self.rank(i - 1)
        }
    }

    /// The cursor behind the first `i` children.
    pub open spec fn cursor(self, i: int) -> Cursor
        decreases i,
    {
        if i <= 0 {
            Cursor::origin()
        } else if self.managed(i - 1) {
            self.cursor(i - 1).seated(
                self.width(i - 1),
                self.room(),
                self.data.spacing_vertical as int,
            ).past(self.width(i - 1), self.height(i - 1), self.data.spacing_horizontal as int)
        } else {
            self.cursor(i - 1)
        }
    }

    /// The cursor at which child `i` is seated.
    pub open spec fn seat(self, i: int) -> Cursor {
        self.cursor(i).seated(self.width(i), self.room(), self.data.spacing_vertical as int)
    }

    /// The row of child `i`, counted from zero.
    pub open spec fn row(self, i: int) -> int {
        self.seat(i).row
    }

    /// The left edge of child `i` after the pass.
    pub open spec fn left(self, i: int) -> int {
        self.content_x() + self.seat(i).cx
    }

    /// The top edge of child `i` after the pass.
    pub open spec fn top(self, i: int) -> int {
        self.content_y() + self.seat(i).cy
    }

    /// The height of everything laid out, padding included.
    pub open spec fn total_height(self) -> int {
        let end = self.cursor(self.children.len() as int);
        end.cy + end.row_height + self.data.padding_top + self.data.padding_bottom
    }

    /// The width of everything laid out, padding included.
    pub open spec fn total_width(self) -> int {
        self.room() + self.data.padding_left + self.data.padding_right
    }

    /// Whether the pass can be written down in pixel values: the column
    /// geometry, the position of every child laid out, and the total height.
    pub open spec fn fits(self) -> bool {
        &&& self.data.splitting() ==> self.data.columns_fit(self.w as int)
        &&& forall|i: int|
            0 <= i < self.children.len() && #[trigger] self.managed(i) ==> is_pixel(self.left(i))
                && is_pixel(self.top(i))
        &&& is_pixel(self.total_height())
    }

    /// Child `i` as the pass leaves it.
    pub open spec fn laid(self, i: int) -> Child {
        if self.managed(i) {
            Child {
                id: self.children[i].id,
                x: self.left(i) as i32,
                y: self.top(i) as i32,
                w: self.width(i) as i32,
                h: self.children[i].h,
            }
        } else {
            self.children[i]
        }
    }

    /// The children as the pass leaves them.
    pub open spec fn laid_out(self) -> Seq<Child> {
        Seq::new(self.children.len(), |i: int| self.laid(i))
    }

    /// The rectangle of everything laid out, padding included, which the
    /// sizing proxy of the container takes.
    pub open spec fn proxy(self) -> Rect {
        Rect { x: self.x, y: self.y, w: self.total_width() as i32, h: self.total_height() as i32 }
    }
}

/// The outcome of a layout pass.
#[derive(Debug)]
pub struct Layout {
    /// The children as the pass leaves them, in their order.
    pub children: Vec<Child>,
    /// The rectangle of everything laid out, padding included.
    pub proxy: Rect,
}

impl Layout {
    /// Tells what size a container of size `w` by `h` has to take so that it
    /// reports the size of what was laid out: none where it has that size
    /// already, so that a container is never resized without need.
    pub fn container_size(&self, w: i32, h: i32) -> (size: Option<(i32, i32)>)
        ensures
            size == if w == self.proxy.w && h == self.proxy.h {
                None
            } else {
                Some((self.proxy.w, self.proxy.h))
            },
    {
        if w == self.proxy.w && h == self.proxy.h {
            None
        } else {
            Some((self.proxy.w, self.proxy.h))
        }
    }
}

/// Tells whether the identifier `id` is among those that a layout leaves alone.
pub fn is_excluded(ignore: &Vec<u64>, id: u64) -> (b: bool)
    ensures
        b == ignore@.to_set().contains(id),
{
    let mut k: usize = 0;
    while k < ignore.len()
        invariant
            k <= ignore.len(),
            forall|j: int| 0 <= j < k ==> ignore@[j] != id,
        decreases ignore.len() - k,
    {
        if ignore[k] == id {
            return true;
        }
        k += 1;
    }
    false
}

impl FlowTableData {
    /// The pass that this configuration makes over the given children.
    pub open spec fn pass(self, x: i32, y: i32, w: i32, children: Seq<Child>, ignore: Seq<u64>) -> Pass {
        Pass { data: self, x, y, w, children, ignore: ignore.to_set() }
    }

    /// Lays the children out in a container at `(x, y)` of width `w`.
    ///
    /// Each child whose identifier is not in `ignore` is seated in its turn:
    /// it takes the column width where the layout splits its content, goes to
    /// a new row where its row holds a sized child already and it would pass
    /// the content width, and is placed at the cursor. The children in
    /// `ignore` are handed back as they came.
    ///
    /// There is no outcome where the pass cannot be written down in pixel
    /// values.
    pub fn layout(&self, x: i32, y: i32, w: i32, children: &Vec<Child>, ignore: &Vec<u64>) -> (r:
        Option<Layout>)
        ensures
            r.is_some() == self.pass(x, y, w, children@, ignore@).fits(),
            r matches Some(l) ==> l.children@ == self.pass(x, y, w, children@, ignore@).laid_out()
                && l.proxy == self.pass(x, y, w, children@, ignore@).proxy(),
            r matches Some(l) ==> forall|i: int|
                0 <= i < children@.len() && ignore@.contains(#[trigger] children@[i].id)
                    ==> l.children@[i] == children@[i],
    {
        let ghost pass = self.pass(x, y, w, children@, ignore@);
        let columns = self.columns(w);
        if self.is_splitting() && columns.is_none() {
            return None;
        }
        let sh: i64 = self.spacing_horizontal as i64;
        let sv: i64 = self.spacing_vertical as i64;
        let content_x: i64 = x as i64 + self.padding_left as i64;
        let content_y: i64 = y as i64 + self.padding_top as i64;
        let room: i64 = w as i64 - self.padding_left as i64 - self.padding_right as i64;
        // The cursor is kept in 64 bits. Every child laid out stands at a
        // pixel position, which holds the cursor within a few times the
        // pixel range, so that none of the sums below can overflow.
        let mut cx: i64 = 0;
        let mut cy: i64 = 0;
        let mut row_height: i64 = 0;
        let mut out: Vec<Child> = Vec::new();
        let mut i: usize = 0;
        while i < children.len()
            invariant
                i <= children.len(),
                pass == self.pass(x, y, w, children@, ignore@),
                columns.is_some() == self.splitting(),
                columns matches Some(k) ==> k.width == self.column_width(w as int),
                sh == self.spacing_horizontal,
                sv == self.spacing_vertical,
                content_x == pass.content_x(),
                content_y == pass.content_y(),
                room == pass.room(),
                cx == pass.cursor(i as int).cx,
                cy == pass.cursor(i as int).cy,
                row_height == pass.cursor(i as int).row_height,
                -0x4_0000_0000 <= cx <= 0x4_0000_0000,
                -0x2_0000_0000 <= cy <= 0x2_0000_0000,
                0 <= row_height <= i32::MAX,
                out@.len() == i,
                forall|j: int| 0 <= j < i ==> out@[j] == pass.laid(j),
                forall|j: int|
                    0 <= j < i && #[trigger] pass.managed(j) ==> is_pixel(pass.left(j)) && is_pixel(
                        pass.top(j),
                    ),
            decreases children.len() - i,
        {
            let child = children[i];
            if is_excluded(ignore, child.id) {
                out.push(child);
            } else {
                assert(pass.managed(i as int));
                let width: i64 = match columns {
                    Some(k) => k.width as i64,
                    None => child.w as i64,
                };
                if row_height != 0 && cx + width > room {
                    cx = 0;
                    cy = cy + row_height + sv;
                    row_height = 0;
                }
                assert(cx == pass.seat(i as int).cx && cy == pass.seat(i as int).cy);
                let left: i64 = content_x + cx;
                let top: i64 = content_y + cy;
                if left < i32::MIN as i64 || left > i32::MAX as i64 || top < i32::MIN as i64 || top
                    > i32::MAX as i64 {
                    return None;
                }
                if child.h as i64 > row_height {
                    row_height = child.h as i64;
                }
                out.push(Child { id: child.id, x: left as i32, y: top as i32, w: width as i32, h: child.h });
                cx = cx + width + sh;
            }
            i += 1;
        }
        let total: i64 = cy + row_height + self.padding_top as i64 + self.padding_bottom as i64;
        if total < i32::MIN as i64 || total > i32::MAX as i64 {
            return None;
        }
        assert forall|j: int|
            0 <= j < children@.len() && ignore@.contains(#[trigger] children@[j].id) implies out@[j]
            == children@[j] by {
            assert(!pass.managed(j));
            assert(out@[j] == pass.laid(j));
        }
        Some(Layout { children: out, proxy: Rect { x, y, w, h: total as i32 } })
    }
}

} // verus!
